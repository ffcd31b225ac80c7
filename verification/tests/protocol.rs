use baatzan::clock::{commit_clock, sees_staged};
use baatzan::lock::Snapshot;
use std::sync::Arc;

fn snapshot(value: u32, new_value: Option<u32>, new_clock: usize) -> Snapshot<u32> {
    Snapshot { value: Arc::new(value), new_value: new_value.map(Arc::new), new_clock }
}

#[test]
fn staged_value_is_visible_from_its_clock_on() {
    assert!(sees_staged(5, 5));
    assert!(sees_staged(6, 5));
    assert!(sees_staged(usize::MAX, 1));
    assert!(sees_staged(usize::MAX, usize::MAX));
}

#[test]
fn staged_value_is_hidden_before_its_clock() {
    assert!(!sees_staged(4, 5));
    assert!(!sees_staged(0, 1));
    assert!(!sees_staged(usize::MAX - 1, usize::MAX));
}

#[test]
fn zero_pending_clock_means_no_write() {
    assert!(!sees_staged(0, 0));
    assert!(!sees_staged(5, 0));
    assert!(!sees_staged(usize::MAX, 0));
}

#[test]
fn commit_clock_is_the_successor() {
    assert_eq!(commit_clock(0), 1);
    assert_eq!(commit_clock(1), 2);
    assert_eq!(commit_clock(41), 42);
    assert_eq!(commit_clock(usize::MAX - 1), usize::MAX);
}

#[test]
fn commit_clock_starts_over_at_the_largest_value() {
    assert_eq!(commit_clock(usize::MAX), 0);
}

#[test]
fn commit_clock_exceeds_the_local_clock() {
    for local in [0usize, 1, 2, 7, 1000, usize::MAX - 1] {
        assert!(commit_clock(local) > local);
    }
}

#[test]
fn reader_at_the_pending_clock_sees_the_staged_value() {
    let seen = snapshot(1, Some(2), 3).visible(3);
    assert_eq!(seen.as_deref(), Some(&2));
}

#[test]
fn reader_after_the_pending_clock_sees_the_staged_value() {
    let seen = snapshot(1, Some(2), 3).visible(10);
    assert_eq!(seen.as_deref(), Some(&2));
}

#[test]
fn reader_before_the_pending_clock_sees_the_committed_value() {
    let seen = snapshot(1, Some(2), 3).visible(2);
    assert_eq!(seen.as_deref(), Some(&1));
}

#[test]
fn reader_of_a_settled_entry_sees_the_committed_value() {
    let seen = snapshot(1, None, 0).visible(7);
    assert_eq!(seen.as_deref(), Some(&1));
    let seen = snapshot(1, Some(2), 0).visible(7);
    assert_eq!(seen.as_deref(), Some(&1));
}

#[test]
fn reader_of_an_empty_pending_slot_sees_nothing() {
    let seen = snapshot(1, None, 3).visible(3);
    assert!(seen.is_none());
    let seen = snapshot(1, None, 3).visible(9);
    assert!(seen.is_none());
}

#[test]
fn reader_before_a_staged_removal_sees_the_committed_value() {
    let seen = snapshot(1, None, 3).visible(2);
    assert_eq!(seen.as_deref(), Some(&1));
}

#[test]
fn visible_handle_is_the_one_in_the_snapshot() {
    let committed = Arc::new(1u32);
    let staged = Arc::new(2u32);
    let seen = Snapshot { value: committed.clone(), new_value: Some(staged.clone()), new_clock: 4 }
        .visible(4)
        .unwrap();
    assert!(Arc::ptr_eq(&seen, &staged));
    let seen = Snapshot { value: committed.clone(), new_value: Some(staged.clone()), new_clock: 4 }
        .visible(3)
        .unwrap();
    assert!(Arc::ptr_eq(&seen, &committed));
}

#[test]
fn publishing_a_staged_value_commits_it() {
    let next = snapshot(1, Some(2), 3).published();
    assert_eq!(*next, 2);
}

#[test]
fn publishing_an_empty_slot_keeps_the_committed_value() {
    let next = snapshot(1, None, 3).published();
    assert_eq!(*next, 1);
}
