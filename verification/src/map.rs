//! The map: the global clock, the accessor of the per-thread state and the
//! store of the entries, with the steps that a transaction takes on them.

use crate::arccell::shared;
use crate::arccell::held;
use crate::counter::{Counter, Loaded, Ticked};
use crate::lock::{Lock, Looked, Marked, ReadHeld, Staged, WriterHeld};
use crate::state::{Observed, Stamped, ThreadState};
use crate::storage::{Storage, ThreadLocal};
use std::marker::PhantomData;
use std::sync::Arc;
use vstd::prelude::*;

verus! {

/// The map: a global clock, the accessor of the per-thread state and the
/// store of the entries.
#[verifier::reject_recursive_types(T)]
pub struct TxMap<T, L, M> where T: Clone, L: ThreadLocal<ThreadState>, M: Storage<Lock<T>> {
    clock: Counter,
    local: L,
    storage: M,
    _phantom: PhantomData<T>,
}

/// The record of one sample of the global clock: the value that was loaded
/// and the value that was stored as the calling thread's local clock.
pub struct Sampled {
    loaded: Loaded,
    observed: Observed,
}

impl Sampled {
    /// The clock that was sampled.
    pub closed spec fn clock(&self) -> Counter {
        self.loaded.counter()
    }

    /// The value that the clock held.
    pub closed spec fn value(&self) -> nat {
        self.loaded.value()
    }

    /// The value that was stored as the thread's local clock.
    pub closed spec fn recorded(&self) -> nat {
        self.observed.value()
    }
}

/// The record of one read of an entry: the sample of the global clock that
/// the reader took and the look at the entry that it decided with.
#[verifier::reject_recursive_types(T)]
pub struct Seen<T> {
    held: ReadHeld<T>,
    sampled: Sampled,
    looked: Looked<T>,
}

impl<T> Seen<T> {
    /// The entry whose shared side the reader took before it sampled the
    /// clock, and keeps.
    pub closed spec fn held(&self) -> Lock<T> {
        self.held.cell()
    }

    /// The clock that the reader sampled.
    pub closed spec fn clock(&self) -> Counter {
        self.sampled.clock()
    }

    /// The value that the clock held.
    pub closed spec fn sample(&self) -> nat {
        self.sampled.value()
    }

    /// The value that was stored as the reader's local clock.
    pub closed spec fn recorded(&self) -> nat {
        self.sampled.recorded()
    }

    /// The entry that was looked at.
    pub closed spec fn cell(&self) -> Lock<T> {
        self.looked.cell()
    }

    /// What the reader loaded from the entry.
    pub closed spec fn entry(&self) -> crate::clock::Entry<T> {
        self.looked.entry()
    }

    /// The sample that the look decided with.
    pub closed spec fn decided_at(&self) -> nat {
        self.looked.sample()
    }

    /// What the visibility rule shows of what was loaded, at the sample:
    /// the answer that the reader was given.
    pub open spec fn outcome(&self) -> Option<T> {
        self.entry().observe(self.sample())
    }
}

/// The record of one claim of an entry by a writer: the sample of the global
/// clock that the writer took, the mark that it left on the entry and the
/// value that it found committed.
#[verifier::reject_recursive_types(T)]
pub struct Claimed<T> {
    held: WriterHeld<T>,
    sampled: Sampled,
    marked: Marked<T>,
    committed: Ghost<T>,
}

/// The record of one tick of the global clock by a commit, with the records
/// of what the commit had staged when it made the tick.
#[verifier::reject_recursive_types(T)]
pub struct Bumped<T> {
    ticked: Ticked,
    staged: Ghost<Seq<Staged<T>>>,
    retired: Ghost<Seq<Staged<T>>>,
}

impl<T> Bumped<T> {
    /// The tick itself.
    pub closed spec fn tick(&self) -> Ticked {
        self.ticked
    }

    /// The stagings of working copies that the tick came after.
    pub closed spec fn staged(&self) -> Seq<Staged<T>> {
        self.staged@
    }

    /// The stagings of removals that the tick came after.
    pub closed spec fn retired(&self) -> Seq<Staged<T>> {
        self.retired@
    }

    /// The tick itself, to hand to the steps that come after it.
    pub(crate) fn ticked(&self) -> (tick: &Ticked)
        ensures
            *tick == self.tick(),
    {
        &self.ticked
    }
}

impl<T> Claimed<T> {
    /// The entry whose writer mutex the writer took before it claimed the
    /// entry, and keeps.
    pub closed spec fn held(&self) -> Lock<T> {
        self.held.cell()
    }

    /// The entry that was claimed.
    pub closed spec fn cell(&self) -> Lock<T> {
        self.marked.cell()
    }

    /// The clock that was stored as the entry's pending clock.
    pub closed spec fn clock(&self) -> nat {
        self.marked.clock()
    }

    /// The clock that the writer sampled.
    pub closed spec fn sampled_from(&self) -> Counter {
        self.sampled.clock()
    }

    /// The value that the clock held.
    pub closed spec fn sample(&self) -> nat {
        self.sampled.value()
    }

    /// The value that was stored as the writer's local clock.
    pub closed spec fn recorded(&self) -> nat {
        self.sampled.recorded()
    }

    /// The value that the writer found committed.
    pub closed spec fn committed(&self) -> T {
        self.committed@
    }
}

/// The record of one removal from the store: the key that the store was
/// asked to let go of, under the exclusive side of the entry's lock.
#[verifier::reject_recursive_types(T)]
#[verifier::reject_recursive_types(K)]
pub struct Unlinked<T, K> {
    cell: Ghost<Lock<T>>,
    key: Ghost<K>,
    after: Ghost<Ticked>,
}

impl<T, K> Unlinked<T, K> {
    /// The entry whose readers the removal waited for.
    pub closed spec fn cell(&self) -> Lock<T> {
        self.cell@
    }

    /// The key that the store was asked to remove.
    pub closed spec fn key(&self) -> K {
        self.key@
    }

    /// The tick of the global clock that the removal came after.
    pub closed spec fn after(&self) -> Ticked {
        self.after@
    }
}

impl<T, L, M> TxMap<T, L, M> where T: Clone, L: ThreadLocal<ThreadState>, M: Storage<Lock<T>> {
    /// The accessor of the per-thread state.
    pub closed spec fn local(&self) -> L {
        self.local
    }

    /// The store of the entries.
    pub closed spec fn storage(&self) -> M {
        self.storage
    }

    /// The global clock.
    pub closed spec fn clock(&self) -> Counter {
        self.clock
    }

    /// The value that the global clock was made with.
    pub open spec fn born_clock(&self) -> nat {
        self.clock().born()
    }

    /// A map over `storage`, with its global clock at one. Nothing checks
    /// that `tls` keeps the states of different threads apart: the caller
    /// vouches for it.
    pub fn unchecked_new(tls: L, storage: M) -> (map: TxMap<T, L, M>)
        ensures
            map.local() == tls,
            map.storage() == storage,
            map.born_clock() == 1,
    {
        TxMap { clock: Counter::new(1), local: tls, storage, _phantom: PhantomData }
    }

    /// What the store answers to a lookup of `key`.
    pub(crate) fn lookup(&self, key: &M::Key) -> Option<Arc<Lock<T>>> {
        self.storage.get(key)
    }

    /// Samples the global clock and records it as the calling thread's
    /// local clock. Returns the sample with the record of both.
    pub(crate) fn sample(&self) -> (taken: (usize, Sampled))
        ensures
            taken.1.clock() == self.clock(),
            taken.1.value() == taken.0,
            taken.1.recorded() == taken.0,
    {
        let (global, loaded) = self.clock.sample();
        let observed = self.local.with(
            |state: &ThreadState| -> (done: Observed)
                ensures
                    done.value() == global
                {
                    state.observe(global)
                },
        );
        (global, Sampled { loaded, observed })
    }

    /// Reads `cell` for a reader that has anchored it: takes the shared side
    /// of the entry's lock, which the reader keeps until its transaction
    /// closes, samples the global clock and looks at the entry. Returns the
    /// handle that the reader is given, none where the visibility rule shows
    /// nothing, with the record of the read.
    pub(crate) fn see(&self, cell: &Lock<T>) -> (taken: (Option<Arc<T>>, Seen<T>))
        ensures
            taken.1.held() == *cell,
            taken.1.cell() == *cell,
            taken.1.clock() == self.clock(),
            taken.1.recorded() == taken.1.sample(),
            taken.1.decided_at() == taken.1.sample(),
            held(taken.0) == taken.1.outcome(),
    {
        let held = cell.enter_read();
        let (global, sampled) = self.sample();
        let (handle, looked) = cell.look(global);
        (handle, Seen { held, sampled, looked })
    }

    /// Claims `cell` for a writer: takes the entry's writer mutex, which the
    /// writer keeps until its transaction closes and which blocks while
    /// another transaction holds it; then, under the shared side of the
    /// entry's lock, samples the global clock, stores the sample as the
    /// entry's pending clock and takes a handle to the committed value.
    /// Returns the handle with the record of the claim.
    pub(crate) fn claim(&self, cell: &Lock<T>) -> (taken: (Arc<T>, Claimed<T>))
        ensures
            taken.1.held() == *cell,
            taken.1.cell() == *cell,
            taken.1.sampled_from() == self.clock(),
            taken.1.recorded() == taken.1.sample(),
            taken.1.clock() == taken.1.sample(),
            taken.1.committed() == *taken.0,
    {
        let held = cell.enter_write();
        let _ = cell.enter_read();
        let (global, sampled) = self.sample();
        let marked = cell.mark(global);
        let committed = cell.committed();
        let _ = cell.leave_read();
        let ghost found = shared(committed);
        (committed, Claimed { held, sampled, marked, committed: Ghost(found) })
    }

    /// Moves the calling thread's local clock on to the clock of a commit,
    /// the successor of the clock that the thread's state held. Returns the
    /// stamp with the record of the advance.
    pub(crate) fn stamp(&self) -> (moved: (usize, Stamped))
        ensures
            moved.1.stamp() == moved.0,
            moved.1.stamp() == crate::clock::next_clock(moved.1.found()),
    {
        self.local.with(
            |state: &ThreadState| -> (moved: (usize, Stamped))
                ensures
                    moved.1.stamp() == moved.0,
                    moved.1.stamp() == crate::clock::next_clock(moved.1.found())
                {
                    state.advance()
                },
        )
    }

    /// Moves the global clock on by one, for a commit that has staged what
    /// `staged` and `retired` record.
    pub(crate) fn tick(&self, staged: &Vec<Staged<T>>, retired: &Vec<Staged<T>>) -> (done: Bumped<T>)
        ensures
            done.tick().counter() == self.clock(),
            done.staged() == staged@,
            done.retired() == retired@,
    {
        let ticked = self.clock.bump();
        Bumped { ticked, staged: Ghost(staged@), retired: Ghost(retired@) }
    }

    /// Asks the store to let go of `key`, once every reader of `cell` has
    /// left, for a commit that has made the tick `after`.
    pub(crate) fn unlink(&self, cell: &Lock<T>, key: &M::Key, after: &Ticked) -> (done: Unlinked<
        T,
        M::Key,
    >)
        ensures
            done.cell() == *cell,
            done.key() == *key,
            done.after() == *after,
    {
        cell.enter_publish();
        let _ = self.storage.remove(key);
        cell.leave_publish();
        Unlinked { cell: Ghost(*cell), key: Ghost(*key), after: Ghost(*after) }
    }
}

} // verus!
