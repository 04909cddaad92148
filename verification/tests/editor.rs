use rctf::editor::EditorOutcome;
use rctf::editor::Key;
use rctf::editor::LineEditor;
use rctf::editor::Redraw;
use rctf::history::CommandHistory;

fn type_text(editor: &mut LineEditor, text: &str) {
    for c in text.chars() {
        let (outcome, redraw) = editor.handle_key(Key::Char(c));
        assert_eq!(outcome, EditorOutcome::Pending);
        assert_eq!(redraw, Redraw::InsertChar);
    }
}

#[test]
fn typing_builds_the_line() {
    let history = CommandHistory::new();
    let mut editor = LineEditor::new(&history);
    type_text(&mut editor, "ls -la");
    assert_eq!(editor.current_line(), "ls -la");
    assert_eq!(editor.column(), 6);
}

#[test]
fn backspace_and_delete_edit_at_the_column() {
    let history = CommandHistory::new();
    let mut editor = LineEditor::new(&history);
    type_text(&mut editor, "abcd");

    let (_, redraw) = editor.handle_key(Key::Backspace);
    assert_eq!(redraw, Redraw::EraseBefore);
    assert_eq!(editor.current_line(), "abc");
    assert_eq!(editor.column(), 3);

    editor.handle_key(Key::Left);
    editor.handle_key(Key::Left);
    let (_, redraw) = editor.handle_key(Key::Delete);
    assert_eq!(redraw, Redraw::EraseAt);
    assert_eq!(editor.current_line(), "ac");
    assert_eq!(editor.column(), 1);

    let (_, redraw) = editor.handle_key(Key::Char('x'));
    assert_eq!(redraw, Redraw::InsertChar);
    assert_eq!(editor.current_line(), "axc");
    assert_eq!(editor.column(), 2);
}

#[test]
fn moves_clamp_at_the_ends() {
    let history = CommandHistory::new();
    let mut editor = LineEditor::new(&history);
    type_text(&mut editor, "ab");

    let (_, redraw) = editor.handle_key(Key::Right);
    assert_eq!(redraw, Redraw::Unchanged);
    editor.handle_key(Key::Left);
    editor.handle_key(Key::Left);
    let (_, redraw) = editor.handle_key(Key::Left);
    assert_eq!(redraw, Redraw::Unchanged);
    assert_eq!(editor.column(), 0);
}

#[test]
fn up_then_down_restores_the_live_line() {
    let mut history = CommandHistory::new();
    history.commit("earlier command".to_string());
    let mut editor = LineEditor::new(&history);
    type_text(&mut editor, "draft");

    let (_, redraw) = editor.handle_key(Key::Up);
    assert_eq!(redraw, Redraw::ReplaceLine);
    assert_eq!(editor.current_line(), "earlier command");
    assert_eq!(editor.column(), 15);

    let (_, redraw) = editor.handle_key(Key::Down);
    assert_eq!(redraw, Redraw::ReplaceLine);
    assert_eq!(editor.current_line(), "draft");
    assert_eq!(editor.column(), 5);
}

#[test]
fn history_browsing_clamps_and_edits_scratch_copy() {
    let mut history = CommandHistory::new();
    history.commit("one".to_string());
    history.commit("two".to_string());
    let mut editor = LineEditor::new(&history);

    editor.handle_key(Key::Up);
    assert_eq!(editor.current_line(), "two");
    editor.handle_key(Key::Up);
    assert_eq!(editor.current_line(), "one");
    let (_, redraw) = editor.handle_key(Key::Up);
    assert_eq!(redraw, Redraw::Unchanged);
    assert_eq!(editor.current_line(), "one");

    // edits while browsing land in the scratch copy, not the history
    editor.handle_key(Key::Char('!'));
    assert_eq!(editor.current_line(), "one!");
    assert_eq!(history.get(0), Some(&"one".to_string()));

    editor.handle_key(Key::Down);
    editor.handle_key(Key::Down);
    assert_eq!(editor.current_line(), "");
    let (_, redraw) = editor.handle_key(Key::Down);
    assert_eq!(redraw, Redraw::Unchanged);
}

#[test]
fn enter_escape_and_interrupt_end_the_turn() {
    let history = CommandHistory::new();
    let mut editor = LineEditor::new(&history);
    type_text(&mut editor, "go");

    let (outcome, redraw) = editor.handle_key(Key::Enter);
    assert_eq!(outcome, EditorOutcome::Committed);
    assert_eq!(redraw, Redraw::EndLine);

    let (outcome, _) = editor.handle_key(Key::Esc);
    assert_eq!(outcome, EditorOutcome::Escaped);

    let (outcome, redraw) = editor.handle_key(Key::CtrlC);
    assert_eq!(outcome, EditorOutcome::Interrupted);
    assert_eq!(redraw, Redraw::InterruptLine);
}
