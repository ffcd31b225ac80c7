//! The cell that holds one entry of the map.

use crate::arccell::{held, shared, ArcCell, ArcOption, Kept, Put};
use crate::clock::{sees_staged, Entry};
use crate::counter::{Counter, Stored, Ticked};
use crate::sync::{
    acquire, enter_exclusive, enter_shared, leave_exclusive, leave_shared, new_mutex, new_rwlock,
    release,
};
use std::sync::Arc;
use vstd::prelude::*;

verus! {

/// One entry: a committed value, a pending value and the clock of the write
/// that is in flight, with the two locks that order access to them.
///
/// A writer holds `writer_mutex` from the moment it asks for the entry until
/// its transaction has closed; `new_value` and `new_clock` are its alone for
/// that span. A reader holds the shared side of `inner_rwlock` until its
/// transaction closes; a commit takes the exclusive side to swap `value`, and
/// so waits until every reader of the old value has left.
#[verifier::reject_recursive_types(T)]
pub struct Lock<T> {
    value: ArcCell<T>,
    new_value: ArcOption<T>,
    new_clock: Counter,
    writer_mutex: parking_lot::RawMutex,
    inner_rwlock: parking_lot::RawRwLock,
}

/// The record of one taking of the shared side of an entry's lock.
#[verifier::reject_recursive_types(T)]
pub struct ReadHeld<T> {
    cell: Ghost<Lock<T>>,
}

impl<T> ReadHeld<T> {
    /// The entry whose shared side was taken.
    pub closed spec fn cell(&self) -> Lock<T> {
        self.cell@
    }
}

/// The record of one giving up of the shared side of an entry's lock.
#[verifier::reject_recursive_types(T)]
pub struct ReadLeft<T> {
    cell: Ghost<Lock<T>>,
}

impl<T> ReadLeft<T> {
    /// The entry whose shared side was given up.
    pub closed spec fn cell(&self) -> Lock<T> {
        self.cell@
    }
}

/// The record of one taking of an entry's writer mutex.
#[verifier::reject_recursive_types(T)]
pub struct WriterHeld<T> {
    cell: Ghost<Lock<T>>,
}

impl<T> WriterHeld<T> {
    /// The entry whose writer mutex was taken.
    pub closed spec fn cell(&self) -> Lock<T> {
        self.cell@
    }
}

/// The record of one giving up of an entry's writer mutex, after a tick of
/// the global clock.
#[verifier::reject_recursive_types(T)]
pub struct WriterLeft<T> {
    cell: Ghost<Lock<T>>,
    after: Ghost<Ticked>,
}

impl<T> WriterLeft<T> {
    /// The entry whose writer mutex was given up.
    pub closed spec fn cell(&self) -> Lock<T> {
        self.cell@
    }

    /// The tick of the global clock that the release came after.
    pub closed spec fn after(&self) -> Ticked {
        self.after@
    }
}

/// The record of one look at an entry: what the reader loaded from the
/// entry, and the sample of the global clock that it decided with.
#[verifier::reject_recursive_types(T)]
pub struct Looked<T> {
    cell: Ghost<Lock<T>>,
    entry: Ghost<Entry<T>>,
    sample: Ghost<usize>,
}

impl<T> Looked<T> {
    /// The entry that was looked at.
    pub closed spec fn cell(&self) -> Lock<T> {
        self.cell@
    }

    /// What the reader loaded: the committed value, the pending value and
    /// the pending clock.
    pub closed spec fn entry(&self) -> Entry<T> {
        self.entry@
    }

    /// The sample of the global clock that the reader decided with.
    pub closed spec fn sample(&self) -> nat {
        self.sample@ as nat
    }

    /// What the visibility rule shows of what was loaded: the answer that
    /// the reader was given.
    pub open spec fn outcome(&self) -> Option<T> {
        self.entry().observe(self.sample())
    }
}

/// The record of one claim of an entry: the clock that a writer stored as
/// the entry's pending clock.
#[verifier::reject_recursive_types(T)]
pub struct Marked<T> {
    cell: Ghost<Lock<T>>,
    stored: Stored,
}

impl<T> Marked<T> {
    /// The entry that was marked.
    pub closed spec fn cell(&self) -> Lock<T> {
        self.cell@
    }

    /// The clock that was stored as the pending clock.
    pub closed spec fn clock(&self) -> nat {
        self.stored.value()
    }
}

/// The record of one staging: what a commit put in an entry's pending slot,
/// and the stamp that it stored as the pending clock.
#[verifier::reject_recursive_types(T)]
pub struct Staged<T> {
    cell: Ghost<Lock<T>>,
    put: Put<T>,
    stored: Stored,
}

impl<T> Staged<T> {
    /// The entry that was staged on.
    pub closed spec fn cell(&self) -> Lock<T> {
        self.cell@
    }

    /// The value that was put in the pending slot, none for a removal.
    pub closed spec fn value(&self) -> Option<T> {
        self.put.value()
    }

    /// The stamp that was stored as the pending clock.
    pub closed spec fn stamp(&self) -> nat {
        self.stored.value()
    }
}

/// The record of one publication: what a commit found in an entry under the
/// exclusive side of its lock, and what it left there.
#[verifier::reject_recursive_types(T)]
pub struct Promoted<T> {
    cell: Ghost<Lock<T>>,
    after: Ghost<Ticked>,
    found: Ghost<Option<T>>,
    kept: Ghost<T>,
    emptied: Put<T>,
    put: Kept<T>,
    stored: Stored,
}

impl<T> Promoted<T> {
    /// The entry that was published.
    pub closed spec fn cell(&self) -> Lock<T> {
        self.cell@
    }

    /// The tick of the global clock that the publication came after.
    pub closed spec fn after(&self) -> Ticked {
        self.after@
    }

    /// The pending value that the commit took out of the pending slot.
    pub closed spec fn found(&self) -> Option<T> {
        self.found@
    }

    /// The value that the commit found committed.
    pub closed spec fn kept(&self) -> T {
        self.kept@
    }

    /// The entry as the commit left it: the value that it stored as the
    /// committed one, what it stored in the pending slot and the pending
    /// clock that it stored.
    pub closed spec fn left(&self) -> Entry<T> {
        Entry {
            value: self.put.value(),
            new_value: self.emptied.value(),
            new_clock: self.stored.value(),
        }
    }
}

/// What a reader found in an entry: handles to the two values and the pending
/// clock, each as it stood when the reader loaded it.
pub struct Snapshot<T> {
    pub value: Arc<T>,
    pub new_value: Option<Arc<T>>,
    pub new_clock: usize,
}

impl<T> Snapshot<T> {
    /// The entry that the snapshot shows.
    pub open spec fn view(&self) -> Entry<T> {
        Entry {
            value: *self.value,
            new_value: match self.new_value {
                Some(staged) => Some(*staged),
                None => None,
            },
            new_clock: self.new_clock as nat,
        }
    }

    /// The handle that a reader is given who sampled the global clock at
    /// `global`: to the pending value where the visibility rule selects it,
    /// and then none where the pending slot is empty; to the committed value
    /// otherwise.
    pub fn visible(self, global: usize) -> (seen: Option<Arc<T>>)
        ensures
            match seen {
                Some(handle) => self@.observe(global as nat) == Some(*handle),
                None => self@.observe(global as nat) is None,
            },
    {
        if sees_staged(global, self.new_clock) {
            self.new_value
        } else {
            Some(self.value)
        }
    }

    /// The handle that is the committed one after the pending value has been
    /// published: the pending one, or the committed one as it is where the
    /// pending slot is empty.
    pub fn published(self) -> (next: Arc<T>)
        ensures
            *next == self@.promote().value,
    {
        match self.new_value {
            Some(staged) => staged,
            None => self.value,
        }
    }
}

impl<T> Lock<T> {
    /// The entry as the cell was made: what its two slots and its pending
    /// clock were made with.
    pub closed spec fn born(&self) -> Entry<T> {
        Entry {
            value: self.value.born(),
            new_value: self.new_value.born(),
            new_clock: self.new_clock.born(),
        }
    }

    /// A cell whose committed value is `t`, with no pending value and no
    /// write in flight.
    pub fn new(t: T) -> (cell: Lock<T>)
        ensures
            cell.born() == (Entry { value: t, new_value: None, new_clock: 0 }),
    {
        Lock {
            value: ArcCell::new(Arc::new(t)),
            new_value: ArcOption::none(),
            new_clock: Counter::new(0),
            writer_mutex: new_mutex(),
            inner_rwlock: new_rwlock(),
        }
    }

    /// Takes the shared side of the reader-writer lock.
    pub(crate) fn enter_read(&self) -> (held: ReadHeld<T>)
        ensures
            held.cell() == *self,
    {
        enter_shared(&self.inner_rwlock);
        ReadHeld { cell: Ghost(*self) }
    }

    /// Gives one hold of the shared side back.
    pub(crate) fn leave_read(&self) -> (left: ReadLeft<T>)
        ensures
            left.cell() == *self,
    {
        leave_shared(&self.inner_rwlock);
        ReadLeft { cell: Ghost(*self) }
    }

    /// Takes the exclusive side of the reader-writer lock, once every
    /// reader has left.
    pub(crate) fn enter_publish(&self) {
        enter_exclusive(&self.inner_rwlock)
    }

    /// Gives the exclusive side back.
    pub(crate) fn leave_publish(&self) {
        leave_exclusive(&self.inner_rwlock)
    }

    /// Takes the writer mutex.
    pub(crate) fn enter_write(&self) -> (held: WriterHeld<T>)
        ensures
            held.cell() == *self,
    {
        acquire(&self.writer_mutex);
        WriterHeld { cell: Ghost(*self) }
    }

    /// Gives the writer mutex back, after the tick `after` of the global
    /// clock.
    pub(crate) fn leave_write(&self, after: &Ticked) -> (left: WriterLeft<T>)
        ensures
            left.cell() == *self,
            left.after() == *after,
    {
        release(&self.writer_mutex);
        WriterLeft { cell: Ghost(*self), after: Ghost(*after) }
    }

    /// A handle to the committed value.
    pub(crate) fn committed(&self) -> Arc<T> {
        self.value.get()
    }

    /// Loads the pending clock, then the pending value, then the committed
    /// one. A writer may act between two of the loads.
    pub(crate) fn snapshot(&self) -> Snapshot<T> {
        let new_clock: usize = self.new_clock.load();
        let new_value = self.new_value.get();
        let value = self.value.get();
        Snapshot { value, new_value, new_clock }
    }

    /// Looks at the entry for a reader that sampled the global clock at
    /// `global`: loads the entry and decides by the visibility rule what the
    /// reader sees of it. Returns the handle that the reader is given, none
    /// where the rule selects an empty pending slot, with the record of the
    /// look.
    pub(crate) fn look(&self, global: usize) -> (seen: (Option<Arc<T>>, Looked<T>))
        ensures
            seen.1.cell() == *self,
            seen.1.sample() == global,
            held(seen.0) == seen.1.outcome(),
    {
        let loaded = self.snapshot();
        let ghost entry = loaded@;
        let handle = loaded.visible(global);
        (handle, Looked { cell: Ghost(*self), entry: Ghost(entry), sample: Ghost(global) })
    }

    /// Marks the entry as claimed by a writer that sampled `global`: stores
    /// the sample as the pending clock. The caller holds the writer mutex
    /// and the shared side.
    pub(crate) fn mark(&self, global: usize) -> (done: Marked<T>)
        ensures
            done.cell() == *self,
            done.clock() == global,
    {
        let stored = self.new_clock.store(global);
        Marked { cell: Ghost(*self), stored }
    }

    /// Puts `staged` in the pending slot and stamps it with `stamp`, under
    /// the shared side: the first half of a commit. The caller holds the
    /// writer mutex.
    pub(crate) fn stage(&self, staged: Option<Arc<T>>, stamp: usize) -> (done: Staged<T>)
        ensures
            done.cell() == *self,
            done.value() == held(staged),
            done.stamp() == stamp,
    {
        enter_shared(&self.inner_rwlock);
        let put = self.new_value.put(staged);
        let stored = self.new_clock.store(stamp);
        leave_shared(&self.inner_rwlock);
        Staged { cell: Ghost(*self), put, stored }
    }

    /// Makes the pending value the committed one, once every reader has left,
    /// and marks the entry as free of writes: the second half of a commit. A
    /// pending slot found empty leaves the committed value as it is. The
    /// caller holds the writer mutex and hands in the tick of the global
    /// clock that it has made.
    pub(crate) fn promote(&self, after: &Ticked) -> (done: Promoted<T>)
        ensures
            done.cell() == *self,
            done.after() == *after,
            done.left() == (Entry {
                value: done.kept(),
                new_value: done.found(),
                new_clock: 0,
            }).promote(),
    {
        enter_exclusive(&self.inner_rwlock);
        let (new_value, emptied) = self.new_value.pull();
        let value = self.value.get();
        let ghost found = held(new_value);
        let ghost kept = shared(value);
        let next = Snapshot { value, new_value, new_clock: 0 }.published();
        let put = self.value.put(next);
        let stored = self.new_clock.store(0);
        leave_exclusive(&self.inner_rwlock);
        Promoted {
            cell: Ghost(*self),
            after: Ghost(*after),
            found: Ghost(found),
            kept: Ghost(kept),
            emptied,
            put,
            stored,
        }
    }
}

} // verus!
