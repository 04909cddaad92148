use rctf::stable_vec::StableVec;

#[derive(Debug, Clone, Copy, PartialEq, Eq, PartialOrd, Ord)]
struct Foo(usize);

#[test]
fn push_and_get() {
    let mut stable_vec = StableVec::new();

    assert_eq!(stable_vec.push(Foo(1)), 0);
    assert_eq!(stable_vec.push(Foo(2)), 1);
    assert_eq!(stable_vec.push(Foo(3)), 2);

    assert_eq!(stable_vec.get(0), Some(&Foo(1)));
    assert_eq!(stable_vec.get(1), Some(&Foo(2)));
    assert_eq!(stable_vec.get(2), Some(&Foo(3)));

    assert_eq!(stable_vec.remove(1), Some(Foo(2)));
    assert_eq!(stable_vec.get(0), Some(&Foo(1)));
    assert_eq!(stable_vec.get(1), None);
    assert_eq!(stable_vec.get(2), Some(&Foo(3)));
}

#[test]
fn from() {
    let mut vec1 = StableVec::new();
    vec1.push(Foo(1));
    vec1.push(Foo(2));
    vec1.push(Foo(3));

    let vec2 = StableVec::from(vec![Foo(1), Foo(2), Foo(3)]);

    assert_eq!(vec1, vec2);
}

#[test]
fn remove() {
    let mut stable_vec = StableVec::from(vec![Foo(1), Foo(2), Foo(3)]);

    assert_eq!(stable_vec.remove(1), Some(Foo(2)));
    assert_eq!(stable_vec.get(0), Some(&Foo(1)));
    assert_eq!(stable_vec.get(1), None);
    assert_eq!(stable_vec.get(2), Some(&Foo(3)));
}

#[test]
fn push_after_remove() {
    let mut stable_vec = StableVec::from(vec![Foo(1), Foo(2), Foo(3)]);
    stable_vec.remove(1);

    assert_eq!(stable_vec.push(Foo(4)), 1);
    assert_eq!(stable_vec.get(1), Some(&Foo(4)));
}

#[test]
fn consecutive_removes() {
    let mut stable_vec = StableVec::from(vec![Foo(1), Foo(2), Foo(3), Foo(4)]);
    stable_vec.remove(1);
    stable_vec.remove(2);

    assert_eq!(stable_vec.push(Foo(5)), 1);
    assert_eq!(stable_vec.push(Foo(6)), 2);

    assert_eq!(stable_vec.get(0), Some(&Foo(1)));
    assert_eq!(stable_vec.get(1), Some(&Foo(5)));
    assert_eq!(stable_vec.get(2), Some(&Foo(6)));
    assert_eq!(stable_vec.get(3), Some(&Foo(4)));
}

#[test]
fn registry_reuses_lowest_freed_index() {
    let mut registry = StableVec::new();

    assert_eq!(registry.push("A"), 0);
    assert_eq!(registry.push("B"), 1);
    assert_eq!(registry.push("C"), 2);

    assert_eq!(registry.remove(1), Some("B"));
    assert_eq!(registry.get(1), None);

    assert_eq!(registry.next_index(), 1);
    assert_eq!(registry.push("D"), 1);
    assert_eq!(registry.get(1), Some(&"D"));
    assert_eq!(registry.get(0), Some(&"A"));
    assert_eq!(registry.get(2), Some(&"C"));
}

#[test]
fn get_out_of_range_and_empty() {
    let mut registry: StableVec<u32> = StableVec::new();
    assert!(registry.is_empty());
    assert_eq!(registry.get(0), None);
    assert_eq!(registry.remove(7), None);
    assert_eq!(registry.next_index(), 0);
    registry.push(9);
    assert!(!registry.is_empty());
    assert_eq!(registry.get(5), None);
}
