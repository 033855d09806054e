use hnterm_core::{Item, PollItem, PollOptionItem, RecordStore};

#[test]
fn empty_store_has_nothing() {
    let s = RecordStore::new();
    assert_eq!(s.len(), 0);
    assert!(!s.contains(1));
    assert!(s.get(1).is_none());
}

#[test]
fn insert_then_get() {
    let mut s = RecordStore::new();
    s.insert(1, Item::Poll(PollItem { id: 1 }));
    s.insert(2, Item::PollOption(PollOptionItem { id: 2 }));
    assert_eq!(s.len(), 2);
    assert!(s.contains(1));
    assert!(s.contains(2));
    assert!(!s.contains(3));
    match s.get(1) {
        Some(Item::Poll(p)) => assert_eq!(p.id, 1),
        _ => panic!("expected the poll under key 1"),
    }
    match s.get(2) {
        Some(Item::PollOption(p)) => assert_eq!(p.id, 2),
        _ => panic!("expected the poll option under key 2"),
    }
}

#[test]
fn insert_replaces_under_same_key() {
    let mut s = RecordStore::new();
    s.insert(7, Item::Poll(PollItem { id: 7 }));
    s.insert(7, Item::Unknown);
    assert_eq!(s.len(), 1);
    match s.get(7) {
        Some(Item::Unknown) => {},
        _ => panic!("expected the replacing record"),
    }
}

#[test]
fn unknown_records_are_stored_too() {
    let mut s = RecordStore::new();
    s.insert(5, Item::Unknown);
    assert!(s.contains(5));
}
