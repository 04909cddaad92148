use rctf::history::CommandHistory;
use rctf::history::MAX_HISTORY_SIZE;

#[test]
fn history_keeps_lines_in_order() {
    let mut history = CommandHistory::new();
    for i in 0..5u32 {
        history.commit(format!("line{}", i));
    }
    assert_eq!(history.len(), 5);
    for i in 0..5u32 {
        assert_eq!(history.get(i as usize), Some(&format!("line{}", i)));
    }
    assert_eq!(history.get(5), None);
}

#[test]
fn history_drops_oldest_beyond_capacity() {
    let mut history = CommandHistory::new();
    for i in 0..150u32 {
        history.commit(format!("line{}", i));
    }
    assert_eq!(history.len(), MAX_HISTORY_SIZE);
    for i in 0..MAX_HISTORY_SIZE {
        assert_eq!(history.get(i), Some(&format!("line{}", i + 50)));
    }
}

#[test]
fn history_loaded_overlong_is_trimmed_on_commit() {
    let lines: Vec<String> = (0..120u32).map(|i| format!("old{}", i)).collect();
    let mut history = CommandHistory::from_lines(lines);
    assert_eq!(history.len(), 120);
    history.commit("new".to_string());
    assert_eq!(history.len(), MAX_HISTORY_SIZE);
    assert_eq!(history.get(0), Some(&"old21".to_string()));
    assert_eq!(history.get(MAX_HISTORY_SIZE - 1), Some(&"new".to_string()));
}

#[test]
fn history_round_trips_through_lines() {
    let mut history = CommandHistory::new();
    history.commit("a".to_string());
    history.commit("b".to_string());
    let saved = history.lines().clone();
    let restored = CommandHistory::from_lines(saved);
    assert_eq!(restored.len(), 2);
    assert_eq!(restored.get(0), Some(&"a".to_string()));
    assert_eq!(restored.get(1), Some(&"b".to_string()));
}
