use windows_app::control::{ControlRect, ControlRegistry};

fn rect(n: i32) -> ControlRect {
    ControlRect { x: n, y: n + 1, width: n + 2, height: n + 3 }
}

#[test]
fn new_registry_is_empty() {
    let r = ControlRegistry::new();
    assert!(r.is_empty());
    assert_eq!(r.len(), 0);
    assert_eq!(r.get(1), None);
    assert!(!r.contains(1));
}

#[test]
fn insert_then_get() {
    let mut r = ControlRegistry::new();
    r.insert(4, rect(10));
    r.insert(2, rect(20));
    assert_eq!(r.len(), 2);
    assert!(!r.is_empty());
    assert_eq!(r.get(4), Some(rect(10)));
    assert_eq!(r.get(2), Some(rect(20)));
    assert_eq!(r.get(3), None);
    assert!(r.contains(2));
    assert!(!r.contains(3));
}

#[test]
fn insert_replaces_and_keeps_keys_unique() {
    let mut r = ControlRegistry::new();
    r.insert(4, rect(10));
    r.insert(2, rect(20));
    r.insert(4, rect(30));
    assert_eq!(r.len(), 2);
    assert_eq!(r.get(4), Some(rect(30)));
    assert_eq!(r.get(2), Some(rect(20)));
}

#[test]
fn entries_come_in_order_of_first_insertion() {
    let mut r = ControlRegistry::new();
    r.insert(4, rect(10));
    r.insert(2, rect(20));
    r.insert(9, rect(40));
    r.insert(4, rect(30));
    assert_eq!(r.entry(0).unwrap().id, 4);
    assert_eq!(r.entry(0).unwrap().rect, rect(30));
    assert_eq!(r.entry(1).unwrap().id, 2);
    assert_eq!(r.entry(1).unwrap().rect, rect(20));
    assert_eq!(r.entry(2).unwrap().id, 9);
}
