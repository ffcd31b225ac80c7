use baatzan::{Allocable, Insertable, Lock, Storage, ThreadLocal, ThreadState, TxMap};
use std::cell::Cell;
use std::collections::BTreeMap;
use std::rc::Rc;
use std::sync::{Arc, Mutex};

/// The states of two threads, of which one is current: a stand-in for
/// thread-local storage that lets one test act as two threads in turn.
struct Threads {
    states: [ThreadState; 2],
    current: Cell<usize>,
}

impl Threads {
    fn new() -> Rc<Threads> {
        Rc::new(Threads {
            states: [ThreadState::default(), ThreadState::default()],
            current: Cell::new(0),
        })
    }

    fn switch_to(&self, thread: usize) {
        self.current.set(thread);
    }

    fn clock_of(&self, thread: usize) -> usize {
        self.states[thread].local_clock()
    }
}

struct Local(Rc<Threads>);

impl ThreadLocal<ThreadState> for Local {
    fn with<F, R>(&self, f: F) -> R
    where
        F: FnOnce(&ThreadState) -> R,
    {
        f(&self.0.states[self.0.current.get()])
    }
}

/// Four entries that never leave.
struct StaticArray<T>([Arc<T>; 4]);

impl<T> Storage<T> for StaticArray<T> {
    type Key = usize;

    fn get(&self, key: &Self::Key) -> Option<Arc<T>> {
        self.0.get(*key).cloned()
    }

    fn remove(&self, _key: &Self::Key) -> Option<Arc<T>> {
        None
    }
}

/// A store that lets go of what is removed.
struct Table<T> {
    entries: Mutex<BTreeMap<usize, Arc<T>>>,
}

impl<T> Table<T> {
    fn new() -> Table<T> {
        Table { entries: Mutex::new(BTreeMap::new()) }
    }

    fn holds(&self, key: usize) -> bool {
        self.entries.lock().unwrap().contains_key(&key)
    }
}

impl<T> Storage<T> for Table<T> {
    type Key = usize;

    fn get(&self, key: &Self::Key) -> Option<Arc<T>> {
        self.entries.lock().unwrap().get(key).cloned()
    }

    fn remove(&self, key: &Self::Key) -> Option<Arc<T>> {
        self.entries.lock().unwrap().remove(key)
    }
}

/// A handle to a table that the test looks into while the map uses it.
struct Shared<T>(Arc<Table<T>>);

impl<T> Storage<T> for Shared<T> {
    type Key = usize;

    fn get(&self, key: &Self::Key) -> Option<Arc<T>> {
        self.0.get(key)
    }

    fn remove(&self, key: &Self::Key) -> Option<Arc<T>> {
        self.0.remove(key)
    }
}

impl<T> Insertable<T> for Table<T> {
    fn insert(&self, key: Self::Key, val: T) -> Option<Arc<T>> {
        self.entries.lock().unwrap().insert(key, Arc::new(val))
    }
}

impl<T> Allocable<T> for Table<T> {
    fn allocate(&self, val: T) -> Self::Key {
        let mut entries = self.entries.lock().unwrap();
        let key = entries.keys().next_back().map_or(0, |last| last + 1);
        entries.insert(key, Arc::new(val));
        key
    }
}

type ArrayMap = TxMap<u32, Local, StaticArray<Lock<u32>>>;

fn array_map() -> (ArrayMap, Rc<Threads>) {
    let threads = Threads::new();
    let map = TxMap::unchecked_new(
        Local(threads.clone()),
        StaticArray([
            Arc::new(Lock::new(0)),
            Arc::new(Lock::new(1)),
            Arc::new(Lock::new(2)),
            Arc::new(Lock::new(3)),
        ]),
    );
    (map, threads)
}

fn read(map: &ArrayMap, key: usize) -> Option<u32> {
    map.transaction(|tx| tx.get(&key).map(|guard| *guard))
}

/// A value that counts how often it was cloned on the way.
struct Copied {
    value: u32,
    copies: u32,
}

impl Clone for Copied {
    fn clone(&self) -> Copied {
        Copied { value: self.value, copies: self.copies + 1 }
    }
}

#[test]
fn fresh_entries_show_their_initial_values() {
    let (map, _) = array_map();
    let seen = map.transaction(|tx| {
        let mut seen = Vec::new();
        for key in 0..4 {
            seen.push(*tx.get(&key).unwrap());
        }
        seen
    });
    assert_eq!(seen, vec![0, 1, 2, 3]);
}

#[test]
fn written_value_is_read_by_the_next_transaction() {
    let (map, _) = array_map();
    map.transaction(|tx| {
        let mut guard = tx.get_mut(&2).unwrap();
        *guard = 17;
    });
    assert_eq!(read(&map, 2), Some(17));
    assert_eq!(read(&map, 0), Some(0));
    assert_eq!(read(&map, 1), Some(1));
    assert_eq!(read(&map, 3), Some(3));
}

#[test]
fn later_write_replaces_the_earlier_one() {
    let (map, _) = array_map();
    map.transaction(|tx| {
        *tx.get_mut(&1).unwrap() = 10;
    });
    map.transaction(|tx| {
        *tx.get_mut(&1).unwrap() = 11;
    });
    assert_eq!(read(&map, 1), Some(11));
}

#[test]
fn working_copy_starts_from_the_committed_value() {
    let (map, _) = array_map();
    map.transaction(|tx| {
        *tx.get_mut(&3).unwrap() = 30;
    });
    let start = map.transaction(|tx| {
        let mut guard = tx.get_mut(&3).unwrap();
        let start = *guard;
        *guard += 1;
        start
    });
    assert_eq!(start, 30);
    assert_eq!(read(&map, 3), Some(31));
}

#[test]
fn one_transaction_publishes_all_its_writes() {
    let (map, _) = array_map();
    map.transaction(|tx| {
        *tx.get_mut(&0).unwrap() = 100;
        *tx.get_mut(&1).unwrap() = 101;
        *tx.get_mut(&3).unwrap() = 103;
    });
    let seen = map.transaction(|tx| {
        let mut seen = Vec::new();
        for key in 0..4 {
            seen.push(*tx.get(&key).unwrap());
        }
        seen
    });
    assert_eq!(seen, vec![100, 101, 2, 103]);
}

#[test]
fn untouched_working_copy_is_committed_all_the_same() {
    let threads = Threads::new();
    let map = TxMap::unchecked_new(
        Local(threads.clone()),
        StaticArray([
            Arc::new(Lock::new(Copied { value: 0, copies: 0 })),
            Arc::new(Lock::new(Copied { value: 1, copies: 0 })),
            Arc::new(Lock::new(Copied { value: 2, copies: 0 })),
            Arc::new(Lock::new(Copied { value: 3, copies: 0 })),
        ]),
    );
    map.transaction(|tx| {
        let guard = tx.get_mut(&1).unwrap();
        drop(guard);
    });
    let (value, copies) = map.transaction(|tx| {
        let guard = tx.get(&1).unwrap();
        (guard.value, guard.copies)
    });
    assert_eq!(value, 1);
    assert_eq!(copies, 1);
    let copies = map.transaction(|tx| tx.get(&0).unwrap().copies);
    assert_eq!(copies, 0);
}

#[test]
fn read_after_write_in_one_transaction_does_not_show_the_old_value() {
    let (map, _) = array_map();
    let seen = map.transaction(|tx| {
        let mut guard = tx.get_mut(&1).unwrap();
        *guard = 4;
        drop(guard);
        tx.get(&1).map(|guard| *guard)
    });
    assert_eq!(seen, None);
    assert_eq!(read(&map, 1), Some(4));
}

#[test]
fn read_before_write_in_one_transaction_shows_the_old_value() {
    let (map, _) = array_map();
    let seen = map.transaction(|tx| {
        let seen = tx.get(&1).map(|guard| *guard);
        *tx.get_mut(&1).unwrap() = 4;
        seen
    });
    assert_eq!(seen, Some(1));
    assert_eq!(read(&map, 1), Some(4));
}

#[test]
fn one_key_can_be_read_many_times() {
    let (map, _) = array_map();
    let seen = map.transaction(|tx| {
        let first = *tx.get(&2).unwrap();
        let second = *tx.get(&2).unwrap();
        let third = *tx.get(&2).unwrap();
        (first, second, third)
    });
    assert_eq!(seen, (2, 2, 2));
    map.transaction(|tx| {
        *tx.get_mut(&2).unwrap() = 5;
    });
    assert_eq!(read(&map, 2), Some(5));
}

#[test]
fn removed_key_is_absent_within_the_transaction() {
    let (map, _) = array_map();
    let (previous, seen) = map.transaction(|tx| {
        let previous = tx.remove(3);
        let seen = tx.get(&3).map(|guard| *guard);
        (previous, seen)
    });
    assert_eq!(previous.as_deref(), Some(&3));
    assert_eq!(seen, None);
}

#[test]
fn removed_key_stays_absent_where_the_store_keeps_the_entry() {
    let (map, _) = array_map();
    map.transaction(|tx| {
        tx.remove(3);
    });
    assert_eq!(read(&map, 3), None);
    assert_eq!(read(&map, 2), Some(2));
}

#[test]
fn removed_key_leaves_the_store_at_commit_and_not_before() {
    let threads = Threads::new();
    let table: Arc<Table<Lock<u32>>> = Arc::new(Table::new());
    table.insert(5, Lock::new(50));
    table.insert(6, Lock::new(60));
    let map = TxMap::unchecked_new(Local(threads), Shared(table.clone()));
    let (previous, held) = map.transaction(|tx| {
        let previous = tx.remove(5);
        (previous, table.holds(5))
    });
    assert_eq!(previous.as_deref(), Some(&50));
    assert!(held);
    assert!(!table.holds(5));
    assert!(table.holds(6));
    let seen = map.transaction(|tx| (tx.get(&5).map(|g| *g), tx.get(&6).map(|g| *g)));
    assert_eq!(seen, (None, Some(60)));
}

#[test]
fn missing_key_is_found_by_no_operation() {
    let (map, _) = array_map();
    let found = map.transaction(|tx| {
        let read = tx.get(&9).is_some();
        let written = tx.get_mut(&9).is_some();
        let removed = tx.remove(9).is_some();
        (read, written, removed)
    });
    assert_eq!(found, (false, false, false));
    assert_eq!(read(&map, 0), Some(0));
}

#[test]
fn transaction_returns_what_the_closure_returned() {
    let (map, _) = array_map();
    assert_eq!(map.transaction(|_| 42), 42);
    let text = map.transaction(|tx| format!("{}", *tx.get(&3).unwrap()));
    assert_eq!(text, "3");
}

#[test]
fn commit_has_run_when_the_call_returns() {
    let (map, threads) = array_map();
    assert_eq!(threads.clock_of(0), 0);
    map.transaction(|tx| {
        *tx.get_mut(&0).unwrap() = 8;
    });
    assert_eq!(threads.clock_of(0), 2);
    assert_eq!(read(&map, 0), Some(8));
}

#[test]
fn lookup_records_the_global_clock_as_the_local_one() {
    let (map, threads) = array_map();
    let within = map.transaction(|tx| {
        tx.get(&0);
        threads.clock_of(0)
    });
    assert_eq!(within, 1);
}

#[test]
fn commit_moves_the_local_clock_past_where_it_stood() {
    let (map, threads) = array_map();
    for _ in 0..5 {
        let before = map.transaction(|tx| {
            tx.get(&0);
            threads.clock_of(0)
        });
        let after = threads.clock_of(0);
        assert!(after > before);
        assert_eq!(after, before + 1);
    }
}

#[test]
fn empty_transaction_moves_the_global_clock_by_one() {
    let (map, threads) = array_map();
    threads.switch_to(1);
    let before = map.transaction(|tx| {
        tx.get(&0);
        threads.clock_of(1)
    });
    threads.switch_to(0);
    map.transaction(|_| {});
    threads.switch_to(1);
    let after = map.transaction(|tx| {
        tx.get(&0);
        threads.clock_of(1)
    });
    assert_eq!(before, 1);
    assert_eq!(after, before + 2);
    threads.switch_to(0);
    map.transaction(|_| {});
    map.transaction(|_| {});
    map.transaction(|_| {});
    threads.switch_to(1);
    let last = map.transaction(|tx| {
        tx.get(&0);
        threads.clock_of(1)
    });
    assert_eq!(last, after + 4);
}

#[test]
fn writes_of_two_threads_to_two_keys_both_land() {
    let (map, threads) = array_map();
    threads.switch_to(0);
    map.transaction(|tx| {
        *tx.get_mut(&1).unwrap() = 7;
    });
    threads.switch_to(1);
    map.transaction(|tx| {
        *tx.get_mut(&2).unwrap() = 9;
    });
    threads.switch_to(0);
    let seen = map.transaction(|tx| (*tx.get(&1).unwrap(), *tx.get(&2).unwrap()));
    assert_eq!(seen, (7, 9));
}

#[test]
fn reader_of_an_entry_claimed_by_an_open_writer_sees_nothing() {
    let (map, threads) = array_map();
    let seen = map.transaction(|tx| {
        *tx.get_mut(&0).unwrap() = 42;
        threads.switch_to(1);
        let seen = map.transaction(|other| other.get(&0).map(|guard| *guard));
        threads.switch_to(0);
        seen
    });
    assert_eq!(seen, None);
    assert_eq!(read(&map, 0), Some(42));
}

#[test]
fn reads_after_a_commit_see_its_write_among_untouched_entries() {
    let (map, threads) = array_map();
    threads.switch_to(1);
    map.transaction(|tx| {
        *tx.get_mut(&1).unwrap() = 77;
    });
    threads.switch_to(0);
    let seen = map.transaction(|tx| {
        let zero = *tx.get(&0).unwrap();
        let one = *tx.get(&1).unwrap();
        let two = *tx.get(&2).unwrap();
        (zero, one, two)
    });
    assert_eq!(seen, (0, 77, 2));
}

#[test]
fn guard_keeps_its_value_while_another_key_is_committed() {
    let (map, threads) = array_map();
    let seen = map.transaction(|tx| {
        let guard = tx.get(&0).unwrap();
        let before = *guard;
        threads.switch_to(1);
        map.transaction(|other| {
            *other.get_mut(&1).unwrap() = 5;
        });
        threads.switch_to(0);
        (before, *guard)
    });
    assert_eq!(seen, (0, 0));
    assert_eq!(read(&map, 1), Some(5));
}

#[test]
fn entries_of_a_growing_store_take_part_in_transactions() {
    let threads = Threads::new();
    let table: Arc<Table<Lock<u32>>> = Arc::new(Table::new());
    assert!(table.insert(4, Lock::new(40)).is_none());
    let fresh = table.allocate(Lock::new(50));
    assert_eq!(fresh, 5);
    let map = TxMap::unchecked_new(Local(threads), Shared(table.clone()));
    map.transaction(|tx| {
        *tx.get_mut(&4).unwrap() += 1;
        tx.remove(5);
    });
    assert!(table.holds(4));
    assert!(!table.holds(5));
    let seen = map.transaction(|tx| (tx.get(&4).map(|g| *g), tx.get(&5).map(|g| *g)));
    assert_eq!(seen, (Some(41), None));
}
