use baatzan::arccell::ArcOption;
use baatzan::{LocalSet, ThreadState};
use std::sync::Arc;

#[test]
fn new_slot_is_empty() {
    let slot: ArcOption<u32> = ArcOption::none();
    assert!(slot.get().is_none());
    assert!(slot.take().is_none());
}

#[test]
fn get_leaves_the_occupant_in_place() {
    let slot = ArcOption::none();
    let seven = Arc::new(7u32);
    slot.set(Some(seven.clone()));
    let first = slot.get().unwrap();
    let second = slot.get().unwrap();
    assert_eq!(*first, 7);
    assert!(Arc::ptr_eq(&first, &seven));
    assert!(Arc::ptr_eq(&second, &seven));
}

#[test]
fn set_replaces_the_occupant() {
    let slot = ArcOption::none();
    slot.set(Some(Arc::new(1u32)));
    slot.set(Some(Arc::new(2u32)));
    assert_eq!(slot.get().as_deref(), Some(&2));
    slot.set(None);
    assert!(slot.get().is_none());
}

#[test]
fn take_empties_the_slot() {
    let slot = ArcOption::none();
    slot.set(Some(Arc::new(5u32)));
    assert_eq!(slot.take().as_deref(), Some(&5));
    assert!(slot.get().is_none());
    assert!(slot.take().is_none());
}

#[test]
fn take_drops_the_slot_s_share_of_the_value() {
    let slot = ArcOption::none();
    let value = Arc::new(5u32);
    slot.set(Some(value.clone()));
    assert_eq!(Arc::strong_count(&value), 2);
    let taken = slot.take();
    assert_eq!(Arc::strong_count(&value), 2);
    drop(taken);
    assert_eq!(Arc::strong_count(&value), 1);
}

#[test]
fn insert_lends_the_new_last_element() {
    let mut set = LocalSet(Vec::new());
    assert_eq!(*set.insert(10), 10);
    assert_eq!(*set.insert(20), 20);
    assert_eq!(set.0, vec![10, 20]);
}

#[test]
fn insert_keeps_what_the_borrower_wrote() {
    let mut set = LocalSet(vec![1, 2]);
    let slot = set.insert(3);
    *slot = 30;
    assert_eq!(set.0, vec![1, 2, 30]);
}

#[test]
fn default_state_starts_at_zero() {
    let state = ThreadState::default();
    assert_eq!(state.local_clock(), 0);
}
