//! The handle through which a transaction works on the map, and the commit
//! that closes it.

use crate::arccell::held;
use crate::clock::next_clock;
use crate::lock::{Lock, Promoted, ReadLeft, Staged, WriterLeft};
use crate::map::{Bumped, Claimed, Seen, TxMap, Unlinked};
use crate::state::{Stamped, ThreadState};
use crate::storage::{Storage, ThreadLocal};
use std::sync::Arc;
use vstd::prelude::*;

verus! {

/// A list that hands out a reference to what it was just given.
pub struct LocalSet<T>(pub Vec<T>);

impl<T> LocalSet<T> {
    /// Appends `t` and lends the new last element. What the borrower leaves
    /// in it is what the list ends with.
    pub fn insert(&mut self, t: T) -> (slot: &mut T)
        ensures
            *slot == t,
            final(self).0@ == old(self).0@.push(*final(slot)),
    {
        self.0.push(t);
        let last: usize = self.0.len() - 1;
        &mut self.0[last]
    }
}

/// A read guard: the value that a lookup found visible.
#[verifier::reject_recursive_types(T)]
pub struct Guard<'a, T> {
    anchor: &'a Arc<Lock<T>>,
    value: Arc<T>,
}

impl<'a, T> Guard<'a, T> {
    /// The value that the guard stands for.
    pub closed spec fn view(&self) -> T {
        *self.value
    }

    /// The entry that the guard reads from.
    pub closed spec fn entry(&self) -> Arc<Lock<T>> {
        *self.anchor
    }
}

impl<T> std::ops::Deref for Guard<'_, T> {
    type Target = T;

    fn deref(&self) -> (value: &T)
        ensures
            *value == self@,
    {
        &self.value
    }
}

/// A write guard: the working copy of an entry that a transaction mutates.
/// What the holder leaves in `value` is what the transaction commits.
pub struct MutGuard<'a, T> {
    pub value: &'a mut T,
}

impl<'a, T> MutGuard<'a, T> {
    /// The working copy as it stands.
    pub open spec fn view(&self) -> T {
        *self.value
    }
}

impl<T> std::ops::Deref for MutGuard<'_, T> {
    type Target = T;

    fn deref(&self) -> (value: &T)
        ensures
            *value == self@,
    {
        self.value
    }
}

impl<T> std::ops::DerefMut for MutGuard<'_, T> {
    fn deref_mut(&mut self) -> (value: &mut T)
        ensures
            *value == old(self)@,
            final(self)@ == *final(value),
            *final(final(self).value) == *final(old(self).value),
    {
        self.value
    }
}

/// The handle of one transaction: the entries it has read, with the record
/// of each look; the entries it writes, with their working copies; the
/// entries it removes; and the record of each claim.
#[verifier::reject_recursive_types(T)]
#[verifier::reject_recursive_types(L)]
#[verifier::reject_recursive_types(M)]
pub struct MapRef<'a, T, L, M> where T: Clone, L: ThreadLocal<ThreadState>, M: Storage<Lock<T>> {
    map: &'a TxMap<T, L, M>,
    readers: LocalSet<Arc<Lock<T>>>,
    looks: Vec<Seen<T>>,
    writers: Vec<Arc<Lock<T>>>,
    values: LocalSet<T>,
    remove: Vec<(Arc<Lock<T>>, M::Key)>,
    claims: Vec<Claimed<T>>,
}

/// What a commit did, step by step: the release of the shared side of each
/// entry read, the advance of the local clock, the staging of each working
/// copy and of each removal, the tick of the global clock, the publication of
/// each written entry, the removal of each removed key from the store, and
/// the release of each writer mutex.
#[verifier::reject_recursive_types(T)]
#[verifier::reject_recursive_types(K)]
pub struct Committed<T, K> {
    pub readers_left: Vec<ReadLeft<T>>,
    pub stamped: Stamped,
    pub staged: Vec<Staged<T>>,
    pub retired: Vec<Staged<T>>,
    pub ticked: Bumped<T>,
    pub promoted: Vec<Promoted<T>>,
    pub unlinked: Vec<Unlinked<T, K>>,
    pub writers_left: Vec<WriterLeft<T>>,
    pub removers_left: Vec<WriterLeft<T>>,
}

impl<'b, T, L, M> MapRef<'b, T, L, M> where
    T: Clone,
    L: ThreadLocal<ThreadState>,
    M: Storage<Lock<T>>,
 {
    /// Every entry read has the record of its look, every entry claimed for
    /// writing has its working copy, and every entry claimed has the record
    /// of its claim.
    pub closed spec fn wf(&self) -> bool {
        &&& self.looks@.len() == self.readers.0@.len()
        &&& self.writers@.len() == self.values.0@.len()
        &&& self.claims@.len() == self.writers@.len() + self.remove@.len()
    }

    /// The map that the transaction works on.
    pub closed spec fn map(&self) -> &TxMap<T, L, M> {
        self.map
    }

    /// The entries read so far, in the order of the lookups.
    pub closed spec fn readers(&self) -> Seq<Arc<Lock<T>>> {
        self.readers.0@
    }

    /// The records of the reads of the entries read, in the same order.
    pub closed spec fn looks(&self) -> Seq<Seen<T>> {
        self.looks@
    }

    /// The entries claimed for writing so far.
    pub closed spec fn writers(&self) -> Seq<Arc<Lock<T>>> {
        self.writers@
    }

    /// The working copies, one for each entry claimed for writing.
    pub closed spec fn values(&self) -> Seq<T> {
        self.values.0@
    }

    /// The entries claimed for removal so far, with their keys.
    pub closed spec fn removals(&self) -> Seq<(Arc<Lock<T>>, M::Key)> {
        self.remove@
    }

    /// The records of the claims, for writing and for removal, in the order
    /// in which they were made.
    pub closed spec fn claims(&self) -> Seq<Claimed<T>> {
        self.claims@
    }

    /// Whether the handle is that of a transaction on `map` that has done
    /// nothing yet.
    pub open spec fn fresh(&self, map: &TxMap<T, L, M>) -> bool {
        &&& self.wf()
        &&& self.map() == map
        &&& self.idle()
    }

    /// Whether the handle holds no entry: no lock of an entry is held on
    /// its behalf.
    pub open spec fn idle(&self) -> bool {
        &&& self.readers().len() == 0
        &&& self.looks().len() == 0
        &&& self.writers().len() == 0
        &&& self.values().len() == 0
        &&& self.removals().len() == 0
        &&& self.claims().len() == 0
    }

    /// Whether `done` is the record of a commit of what the handle holds:
    /// the shared side of every entry read was given up; the stamp is the
    /// successor of the local clock found; every working copy was staged on
    /// its own entry, and every removal on its entry as an empty slot, all
    /// under that stamp; the tick moved this map's global clock by one, and
    /// came after all those stagings; after the tick, every written entry
    /// was published, its pending value made the committed one and its
    /// pending clock set to zero, and the store was asked to remove every
    /// removed key, in order; and, after the tick, the writer mutex of every
    /// entry written or removed was given up.
    pub open spec fn closed_by(&self, done: Committed<T, M::Key>) -> bool {
        &&& done.readers_left@.len() == self.readers().len()
        &&& forall|j: int|
            0 <= j < done.readers_left@.len() ==> (#[trigger] done.readers_left@[j]).cell()
                == *self.readers()[j]
        &&& done.stamped.stamp() == next_clock(done.stamped.found())
        &&& done.staged@.len() == self.writers().len()
        &&& forall|j: int|
            0 <= j < done.staged@.len() ==> {
                &&& (#[trigger] done.staged@[j]).cell() == *self.writers()[j]
                &&& done.staged@[j].value() == Some(self.values()[j])
                &&& done.staged@[j].stamp() == done.stamped.stamp()
            }
        &&& done.retired@.len() == self.removals().len()
        &&& forall|j: int|
            0 <= j < done.retired@.len() ==> {
                &&& (#[trigger] done.retired@[j]).cell() == *self.removals()[j].0
                &&& done.retired@[j].value() is None
                &&& done.retired@[j].stamp() == done.stamped.stamp()
            }
        &&& done.ticked.tick().counter() == self.map().clock()
        &&& done.ticked.staged() == done.staged@
        &&& done.ticked.retired() == done.retired@
        &&& done.promoted@.len() == self.writers().len()
        &&& forall|j: int|
            0 <= j < done.promoted@.len() ==> {
                &&& (#[trigger] done.promoted@[j]).cell() == *self.writers()[j]
                &&& done.promoted@[j].after() == done.ticked.tick()
                &&& done.promoted@[j].left() == (crate::clock::Entry {
                    value: done.promoted@[j].kept(),
                    new_value: done.promoted@[j].found(),
                    new_clock: 0,
                }).promote()
            }
        &&& done.unlinked@.len() == self.removals().len()
        &&& forall|j: int|
            0 <= j < done.unlinked@.len() ==> {
                &&& (#[trigger] done.unlinked@[j]).cell() == *self.removals()[j].0
                &&& done.unlinked@[j].key() == self.removals()[j].1
                &&& done.unlinked@[j].after() == done.ticked.tick()
            }
        &&& done.writers_left@.len() == self.writers().len()
        &&& forall|j: int|
            0 <= j < done.writers_left@.len() ==> {
                &&& (#[trigger] done.writers_left@[j]).cell() == *self.writers()[j]
                &&& done.writers_left@[j].after() == done.ticked.tick()
            }
        &&& done.removers_left@.len() == self.removals().len()
        &&& forall|j: int|
            0 <= j < done.removers_left@.len() ==> {
                &&& (#[trigger] done.removers_left@[j]).cell() == *self.removals()[j].0
                &&& done.removers_left@[j].after() == done.ticked.tick()
            }
    }

    /// Anchors `cell` among the entries read and reads it: takes the shared
    /// side of its lock, samples the global clock and looks at the entry.
    /// The answer is what the visibility rule shows of what the look loaded.
    pub(crate) fn read_entry<'a>(&'a mut self, cell: Arc<Lock<T>>) -> (found: Option<Guard<'a, T>>)
        requires
            old(self).wf(),
        ensures
            final(self).wf(),
            final(self).readers() == old(self).readers().push(cell),
            final(self).looks().len() == old(self).looks().len() + 1,
            final(self).looks().drop_last() == old(self).looks(),
            final(self).looks().last().held() == *cell,
            final(self).looks().last().cell() == *cell,
            final(self).looks().last().clock() == old(self).map().clock(),
            final(self).looks().last().recorded() == final(self).looks().last().sample(),
            match found {
                Some(guard) => {
                    &&& guard.entry() == cell
                    &&& final(self).looks().last().outcome() == Some(guard@)
                },
                None => final(self).looks().last().outcome() is None,
            },
            final(self).writers() == old(self).writers(),
            final(self).values() == old(self).values(),
            final(self).removals() == old(self).removals(),
            final(self).claims() == old(self).claims(),
            final(self).map() == old(self).map(),
    {
        let map = self.map;
        let anchor: &Arc<Lock<T>> = self.readers.insert(cell);
        let (handle, seen) = map.see(anchor);
        self.looks.push(seen);
        assert(self.looks@.drop_last() =~= old(self).looks@);
        match handle {
            Some(value) => Some(Guard { anchor, value }),
            None => None,
        }
    }

    /// Enters `cell`, which the caller has claimed as `claimed` records,
    /// among the entries that the transaction writes, and lends a working
    /// copy that is a clone of `committed`, the value that the claim found
    /// committed.
    pub(crate) fn write_entry<'a>(
        &'a mut self,
        cell: Arc<Lock<T>>,
        committed: Arc<T>,
        claimed: Claimed<T>,
    ) -> (guard: MutGuard<'a, T>)
        requires
            old(self).wf(),
        ensures
            final(self).wf(),
            final(self).readers() == old(self).readers(),
            final(self).looks() == old(self).looks(),
            final(self).writers() == old(self).writers().push(cell),
            final(self).values() == old(self).values().push(*final(guard.value)),
            final(self).removals() == old(self).removals(),
            final(self).claims() == old(self).claims().push(claimed),
            final(self).map() == old(self).map(),
            cloned(*committed, guard@),
    {
        let working = T::clone(&committed);
        self.writers.push(cell);
        self.claims.push(claimed);
        let value = self.values.insert(working);
        MutGuard { value }
    }

    /// Enters `cell`, which the caller has claimed as `claimed` records,
    /// among the entries that the transaction removes, under `key`, and
    /// hands back `committed`, the handle to the value that the claim found
    /// committed.
    pub(crate) fn remove_entry(
        &mut self,
        cell: Arc<Lock<T>>,
        key: M::Key,
        committed: Arc<T>,
        claimed: Claimed<T>,
    ) -> (previous: Arc<T>)
        requires
            old(self).wf(),
        ensures
            final(self).wf(),
            final(self).readers() == old(self).readers(),
            final(self).looks() == old(self).looks(),
            final(self).writers() == old(self).writers(),
            final(self).values() == old(self).values(),
            final(self).removals() == old(self).removals().push((cell, key)),
            final(self).claims() == old(self).claims().push(claimed),
            final(self).map() == old(self).map(),
            previous == committed,
    {
        self.remove.push((cell, key));
        self.claims.push(claimed);
        committed
    }

    /// Commits the transaction: gives up the shared side of every entry
    /// read; stamps the local clock; stages every working copy and every
    /// removal under the new stamp; then moves the global clock on; then
    /// publishes every staged value and unlinks every removed key, each once
    /// the readers of its entry have left; and gives up every writer mutex.
    /// The handle holds nothing afterwards. Returns the record of what was
    /// done.
    pub(crate) fn commit(&mut self) -> (done: Committed<T, M::Key>)
        requires
            old(self).wf(),
        ensures
            final(self).wf(),
            final(self).idle(),
            final(self).map() == old(self).map(),
            old(self).closed_by(done),
    {
        let map = self.map;
        let ghost readers = self.readers.0@;
        let ghost writers = self.writers@;
        let ghost values = self.values.0@;
        let ghost removals = self.remove@;
        // The transaction's reads are over: let the committers go on that
        // wait for its readers to leave.
        let mut readers_left: Vec<ReadLeft<T>> = Vec::new();
        let mut i: usize = 0;
        while i < self.readers.0.len()
            invariant
                self.map == map,
                self.readers.0@ == readers,
                self.writers@ == writers,
                self.values.0@ == values,
                self.remove@ == removals,
                i <= readers.len(),
                readers_left@.len() == i,
                forall|j: int| 0 <= j < i ==> (#[trigger] readers_left@[j]).cell() == *readers[j],
            decreases readers.len() - i,
        {
            let left = self.readers.0[i].leave_read();
            readers_left.push(left);
            i += 1;
        }
        self.readers.0.clear();
        self.looks.clear();
        self.claims.clear();

        let (stamp, stamped) = map.stamp();

        // Stage everything before the global clock moves, so that a reader
        // whose sample reaches the stamp finds the pending slot filled.
        let mut staged: Vec<Staged<T>> = Vec::new();
        let mut i: usize = 0;
        while i < self.writers.len()
            invariant
                self.map == map,
                self.readers.0@.len() == 0,
                self.looks@.len() == 0,
                self.claims@.len() == 0,
                self.writers@ == writers,
                self.remove@ == removals,
                writers.len() == values.len(),
                i <= writers.len(),
                self.values.0@ == values.skip(i as int),
                staged@.len() == i,
                forall|j: int|
                    0 <= j < i ==> {
                        &&& (#[trigger] staged@[j]).cell() == *writers[j]
                        &&& staged@[j].value() == Some(values[j])
                        &&& staged@[j].stamp() == stamp
                    },
            decreases writers.len() - i,
        {
            let working = self.values.0.remove(0);
            assert(self.values.0@ =~= values.skip(i as int + 1));
            let done = self.writers[i].stage(Some(Arc::new(working)), stamp);
            staged.push(done);
            i += 1;
        }
        let mut retired: Vec<Staged<T>> = Vec::new();
        let mut i: usize = 0;
        while i < self.remove.len()
            invariant
                self.map == map,
                self.readers.0@.len() == 0,
                self.looks@.len() == 0,
                self.claims@.len() == 0,
                self.values.0@.len() == 0,
                self.writers@ == writers,
                self.remove@ == removals,
                i <= removals.len(),
                retired@.len() == i,
                forall|j: int|
                    0 <= j < i ==> {
                        &&& (#[trigger] retired@[j]).cell() == *removals[j].0
                        &&& retired@[j].value() is None
                        &&& retired@[j].stamp() == stamp
                    },
            decreases removals.len() - i,
        {
            let done = self.remove[i].0.stage(None, stamp);
            retired.push(done);
            i += 1;
        }

        let ticked = map.tick(&staged, &retired);

        // Publish, entry by entry, each once its readers have left.
        let mut promoted: Vec<Promoted<T>> = Vec::new();
        let mut i: usize = 0;
        while i < self.writers.len()
            invariant
                self.map == map,
                self.readers.0@.len() == 0,
                self.looks@.len() == 0,
                self.claims@.len() == 0,
                self.values.0@.len() == 0,
                self.writers@ == writers,
                self.remove@ == removals,
                i <= writers.len(),
                promoted@.len() == i,
                forall|j: int|
                    0 <= j < i ==> {
                        &&& (#[trigger] promoted@[j]).cell() == *writers[j]
                        &&& promoted@[j].after() == ticked.tick()
                        &&& promoted@[j].left() == (crate::clock::Entry {
                            value: promoted@[j].kept(),
                            new_value: promoted@[j].found(),
                            new_clock: 0,
                        }).promote()
                    },
            decreases writers.len() - i,
        {
            let done = self.writers[i].promote(ticked.ticked());
            promoted.push(done);
            i += 1;
        }
        let mut unlinked: Vec<Unlinked<T, M::Key>> = Vec::new();
        let mut i: usize = 0;
        while i < self.remove.len()
            invariant
                self.map == map,
                self.readers.0@.len() == 0,
                self.looks@.len() == 0,
                self.claims@.len() == 0,
                self.values.0@.len() == 0,
                self.writers@ == writers,
                self.remove@ == removals,
                i <= removals.len(),
                unlinked@.len() == i,
                forall|j: int|
                    0 <= j < i ==> {
                        &&& (#[trigger] unlinked@[j]).cell() == *removals[j].0
                        &&& unlinked@[j].key() == removals[j].1
                        &&& unlinked@[j].after() == ticked.tick()
                    },
            decreases removals.len() - i,
        {
            let done = map.unlink(&self.remove[i].0, &self.remove[i].1, ticked.ticked());
            unlinked.push(done);
            i += 1;
        }

        // Let the next writer of each entry in.
        let mut writers_left: Vec<WriterLeft<T>> = Vec::new();
        let mut i: usize = 0;
        while i < self.writers.len()
            invariant
                self.map == map,
                self.readers.0@.len() == 0,
                self.looks@.len() == 0,
                self.claims@.len() == 0,
                self.values.0@.len() == 0,
                self.writers@ == writers,
                self.remove@ == removals,
                i <= writers.len(),
                writers_left@.len() == i,
                forall|j: int|
                    0 <= j < i ==> {
                        &&& (#[trigger] writers_left@[j]).cell() == *writers[j]
                        &&& writers_left@[j].after() == ticked.tick()
                    },
            decreases writers.len() - i,
        {
            let left = self.writers[i].leave_write(ticked.ticked());
            writers_left.push(left);
            i += 1;
        }
        self.writers.clear();
        let mut removers_left: Vec<WriterLeft<T>> = Vec::new();
        let mut i: usize = 0;
        while i < self.remove.len()
            invariant
                self.map == map,
                self.readers.0@.len() == 0,
                self.looks@.len() == 0,
                self.claims@.len() == 0,
                self.values.0@.len() == 0,
                self.writers@.len() == 0,
                self.remove@ == removals,
                i <= removals.len(),
                removers_left@.len() == i,
                forall|j: int|
                    0 <= j < i ==> {
                        &&& (#[trigger] removers_left@[j]).cell() == *removals[j].0
                        &&& removers_left@[j].after() == ticked.tick()
                    },
            decreases removals.len() - i,
        {
            let left = self.remove[i].0.leave_write(ticked.ticked());
            removers_left.push(left);
            i += 1;
        }
        self.remove.clear();
        Committed {
            readers_left,
            stamped,
            staged,
            retired,
            ticked,
            promoted,
            unlinked,
            writers_left,
            removers_left,
        }
    }

    /// Looks `key` up and reads the entry found: anchors it among the
    /// entries read, with the record of the look, and answers what the
    /// visibility rule shows of what the look loaded. `None` stands for a
    /// key that the store does not hold, which leaves the handle as it was,
    /// and for an entry of which the rule shows nothing.
    pub fn get<'a>(&'a mut self, key: &M::Key) -> (found: Option<Guard<'a, T>>)
        requires
            old(self).wf(),
        ensures
            final(self).wf(),
            final(self).writers() == old(self).writers(),
            final(self).values() == old(self).values(),
            final(self).removals() == old(self).removals(),
            final(self).claims() == old(self).claims(),
            final(self).map() == old(self).map(),
            match found {
                Some(guard) => {
                    &&& final(self).readers() == old(self).readers().push(guard.entry())
                    &&& final(self).looks().len() == old(self).looks().len() + 1
                    &&& final(self).looks().drop_last() == old(self).looks()
                    &&& final(self).looks().last().held() == *guard.entry()
                    &&& final(self).looks().last().cell() == *guard.entry()
                    &&& final(self).looks().last().clock() == old(self).map().clock()
                    &&& final(self).looks().last().recorded() == final(self).looks().last().sample()
                    &&& final(self).looks().last().outcome() == Some(guard@)
                },
                None => {
                    ||| {
                        &&& final(self).readers() == old(self).readers()
                        &&& final(self).looks() == old(self).looks()
                    }
                    ||| {
                        &&& final(self).readers().len() == old(self).readers().len() + 1
                        &&& final(self).readers().drop_last() == old(self).readers()
                        &&& final(self).looks().len() == old(self).looks().len() + 1
                        &&& final(self).looks().drop_last() == old(self).looks()
                        &&& final(self).looks().last().held() == *final(self).readers().last()
                        &&& final(self).looks().last().cell() == *final(self).readers().last()
                        &&& final(self).looks().last().clock() == old(self).map().clock()
                        &&& final(self).looks().last().sample() == final(self).looks().last().recorded()
                        &&& final(self).looks().last().outcome() is None
                    }
                },
            },
    {
        match self.map.lookup(key) {
            Some(cell) => {
                let ghost before = self.readers.0@;
                let found = self.read_entry(cell);
                assert(before.push(cell).drop_last() =~= before);
                found
            },
            None => None,
        }
    }

    /// Looks `key` up and claims the entry found for writing: takes its
    /// writer mutex, which blocks while another transaction holds it, stores
    /// the sample of the global clock as its pending clock and lends a
    /// working copy, a clone of the value found committed. `None` stands for
    /// a key that the store does not hold, and leaves the handle as it was.
    pub fn get_mut<'a>(&'a mut self, key: &M::Key) -> (found: Option<MutGuard<'a, T>>)
        requires
            old(self).wf(),
        ensures
            final(self).wf(),
            final(self).readers() == old(self).readers(),
            final(self).looks() == old(self).looks(),
            final(self).removals() == old(self).removals(),
            final(self).map() == old(self).map(),
            match found {
                Some(guard) => {
                    &&& final(self).writers().len() == old(self).writers().len() + 1
                    &&& final(self).writers().drop_last() == old(self).writers()
                    &&& final(self).values() == old(self).values().push(*final(guard.value))
                    &&& final(self).claims().len() == old(self).claims().len() + 1
                    &&& final(self).claims().drop_last() == old(self).claims()
                    &&& final(self).claims().last().held() == *final(self).writers().last()
                    &&& final(self).claims().last().cell() == *final(self).writers().last()
                    &&& final(self).claims().last().sampled_from() == old(self).map().clock()
                    &&& final(self).claims().last().recorded() == final(self).claims().last().sample()
                    &&& final(self).claims().last().clock() == final(self).claims().last().sample()
                    &&& cloned(final(self).claims().last().committed(), guard@)
                },
                None => {
                    &&& final(self).writers() == old(self).writers()
                    &&& final(self).values() == old(self).values()
                    &&& final(self).claims() == old(self).claims()
                },
            },
    {
        match self.map.lookup(key) {
            Some(cell) => {
                let (committed, claimed) = self.map.claim(&cell);
                let ghost writers = self.writers@;
                let ghost claims = self.claims@;
                let guard = self.write_entry(cell, committed, claimed);
                assert(writers.push(cell).drop_last() =~= writers);
                assert(claims.push(claimed).drop_last() =~= claims);
                Some(guard)
            },
            None => None,
        }
    }

    /// Looks `key` up and claims the entry found for removal: takes its
    /// writer mutex, which blocks while another transaction holds it, stores
    /// the sample of the global clock as its pending clock and returns a
    /// handle to the value found committed. `None` stands for a key that the
    /// store does not hold, and leaves the handle as it was.
    pub fn remove(&mut self, key: M::Key) -> (previous: Option<Arc<T>>)
        requires
            old(self).wf(),
        ensures
            final(self).wf(),
            final(self).readers() == old(self).readers(),
            final(self).looks() == old(self).looks(),
            final(self).writers() == old(self).writers(),
            final(self).values() == old(self).values(),
            final(self).map() == old(self).map(),
            match previous {
                Some(handle) => {
                    &&& final(self).removals().len() == old(self).removals().len() + 1
                    &&& final(self).removals().drop_last() == old(self).removals()
                    &&& final(self).removals().last().1 == key
                    &&& final(self).claims().len() == old(self).claims().len() + 1
                    &&& final(self).claims().drop_last() == old(self).claims()
                    &&& final(self).claims().last().held() == *final(self).removals().last().0
                    &&& final(self).claims().last().cell() == *final(self).removals().last().0
                    &&& final(self).claims().last().sampled_from() == old(self).map().clock()
                    &&& final(self).claims().last().recorded() == final(self).claims().last().sample()
                    &&& final(self).claims().last().clock() == final(self).claims().last().sample()
                    &&& final(self).claims().last().committed() == *handle
                },
                None => {
                    &&& final(self).removals() == old(self).removals()
                    &&& final(self).claims() == old(self).claims()
                },
            },
    {
        match self.map.lookup(&key) {
            Some(cell) => {
                let (committed, claimed) = self.map.claim(&cell);
                let ghost removals = self.remove@;
                let ghost claims = self.claims@;
                let previous = self.remove_entry(cell, key, committed, claimed);
                assert(removals.push((cell, key)).drop_last() =~= removals);
                assert(claims.push(claimed).drop_last() =~= claims);
                Some(previous)
            },
            None => None,
        }
    }
}

/// `scopeguard::guard` and `ScopeGuard::into_inner`: runs `f` on `tx` under
/// a guard that commits `tx` where `f` leaves by a panic, so that the locks
/// of the entries are given up on that path too. The guard that `guard`
/// returns lends out the reference it was given and, when dropped, calls the
/// closure it was given on that reference, once; `into_inner` takes the
/// reference back out and leaves nothing to be called. Where `f` returns, the
/// guard is taken apart in this way before anything drops it: the result is
/// what `f` returned on `tx`, and `tx` is as `f` left it. The guard's type is
/// bounded by a trait of `scopeguard`, so it cannot be handed to the caller,
/// and `f` is run in here.
#[verifier::external_body]
fn run_netted<'a, T, L, M, F, R>(tx: &mut MapRef<'a, T, L, M>, f: F) -> (outcome: R) where
    T: Clone,
    L: ThreadLocal<ThreadState>,
    M: Storage<Lock<T>>,
    F: FnOnce(&mut MapRef<'a, T, L, M>) -> R,

    requires
        old(tx).wf(),
        forall|handle: &mut MapRef<'a, T, L, M>|
            *handle == *old(tx) ==> call_requires(f, (handle,)),
        forall|handle: &mut MapRef<'a, T, L, M>, out: R|
            *handle == *old(tx) && call_ensures(f, (handle,), out) ==> final(handle).wf(),
    ensures
        exists|handle: &mut MapRef<'a, T, L, M>|
            *handle == *old(tx) && *final(handle) == *final(tx) && call_ensures(
                f,
                (handle,),
                outcome,
            ),
{
    let mut net = scopeguard::guard(tx, |tx| {
        let _ = tx.commit();
    });
    let outcome = f(&mut **net);
    let _ = scopeguard::ScopeGuard::into_inner(net);
    outcome
}

impl<T, L, M> TxMap<T, L, M> where T: Clone, L: ThreadLocal<ThreadState>, M: Storage<Lock<T>> {
    /// Opens a transaction, runs `f` on its handle and commits what `f` left
    /// in it. The commit has run when the call returns, and runs as well
    /// where `f` leaves by a panic. Returns what `f` returned.
    pub fn transaction<F: FnOnce(&mut MapRef<'_, T, L, M>) -> R, R>(&self, f: F) -> (outcome: R)
        requires
            forall|tx: &mut MapRef<'_, T, L, M>| tx.fresh(self) ==> call_requires(f, (tx,)),
            forall|tx: &mut MapRef<'_, T, L, M>, out: R|
                tx.fresh(self) && call_ensures(f, (tx,), out) ==> final(tx).wf(),
        ensures
            exists|tx: &mut MapRef<'_, T, L, M>, done: Committed<T, M::Key>|
                tx.fresh(self) && call_ensures(f, (tx,), outcome) && final(tx).closed_by(done),
    {
        let mut tx = MapRef {
            map: self,
            readers: LocalSet(Vec::new()),
            looks: Vec::new(),
            writers: Vec::new(),
            values: LocalSet(Vec::new()),
            remove: Vec::new(),
            claims: Vec::new(),
        };
        let ghost opened = tx;
        assert(tx.fresh(self));
        let outcome = run_netted(&mut tx, f);
        let ghost left = tx;
        let done = tx.commit();
        proof {
            let handle = choose|handle: &mut MapRef<'_, T, L, M>|
                *handle == opened && *final(handle) == left && call_ensures(
                    f,
                    (handle,),
                    outcome,
                );
            assert(handle.fresh(self));
            assert(call_ensures(f, (handle,), outcome));
            assert(final(handle).closed_by(done));
        }
        outcome
    }
}

} // verus!
