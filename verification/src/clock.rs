//! The logical-clock protocol that decides what a reader sees.
//!
//! Every entry carries a committed value, an optional pending value and a
//! pending clock. The map carries one global clock. This module states the
//! protocol over plain values: the executable decisions that the transaction
//! code makes, the states an entry moves through, and the laws that follow.

use vstd::prelude::*;

verus! {

/// The visibility rule: a reader that sampled the global clock at `global`
/// looks at the pending value of an entry whose pending clock is `pending`,
/// and at the committed value otherwise. A pending clock of zero means that
/// no write is in flight.
pub open spec fn staged_visible(global: nat, pending: nat) -> bool {
    pending > 0 && global >= pending
}

/// Decides which of an entry's two values a reader consults.
pub fn sees_staged(global: usize, pending: usize) -> (staged: bool)
    ensures
        staged == staged_visible(global as nat, pending as nat),
{
    pending > 0 && global >= pending
}

/// The clock that a commit stamps on what it stages, given the committing
/// thread's local clock. It is the successor of the local clock; at the
/// machine's largest value it starts over at zero, as the global counter does.
pub open spec fn next_clock(local: nat) -> nat {
    if local == usize::MAX {
        0
    } else {
        local + 1
    }
}

/// Computes the commit clock from the local clock.
pub fn commit_clock(local: usize) -> (stamp: usize)
    ensures
        stamp == next_clock(local as nat),
        local < usize::MAX ==> stamp > local,
{
    if local == usize::MAX {
        0
    } else {
        local + 1
    }
}

/// One entry as the protocol sees it.
pub struct Entry<V> {
    /// The committed value.
    pub value: V,
    /// The pending value; none while nothing is staged, and while a removal
    /// is.
    pub new_value: Option<V>,
    /// The clock of the write in flight; zero while there is none.
    pub new_clock: nat,
}

impl<V> Entry<V> {
    /// What a reader sees that sampled the global clock at `global`: the
    /// pending value if the visibility rule says so, which is nothing where
    /// the pending slot is empty, and the committed value otherwise.
    pub open spec fn observe(self, global: nat) -> Option<V> {
        if staged_visible(global, self.new_clock) {
            self.new_value
        } else {
            Some(self.value)
        }
    }

    /// The entry after a writer that sampled `global` has claimed it.
    pub open spec fn claim(self, global: nat) -> Entry<V> {
        Entry { new_clock: global, ..self }
    }

    /// The entry after a commit has staged `staged` under the clock `stamp`.
    pub open spec fn stage(self, staged: Option<V>, stamp: nat) -> Entry<V> {
        Entry { new_value: staged, new_clock: stamp, ..self }
    }

    /// The entry after a commit has published what was staged: the pending
    /// value, if there is one, is the committed one, and no write is in
    /// flight.
    pub open spec fn promote(self) -> Entry<V> {
        Entry {
            value: match self.new_value {
                Some(staged) => staged,
                None => self.value,
            },
            new_value: None,
            new_clock: 0,
        }
    }
}

/// The map as the protocol sees it: the global clock and the entries that
/// the store holds.
#[verifier::reject_recursive_types(K)]
pub struct World<K, V> {
    pub global_clock: nat,
    pub entries: Map<K, Entry<V>>,
}

impl<K, V> World<K, V> {
    /// What a lookup of `key` returns to a reader that samples the global
    /// clock now.
    pub open spec fn read(self, key: K) -> Option<V> {
        if self.entries.contains_key(key) {
            self.entries[key].observe(self.global_clock)
        } else {
            None
        }
    }

    /// The map after a writer has claimed `key`, for writing or for removal.
    pub open spec fn claim(self, key: K) -> World<K, V> {
        if self.entries.contains_key(key) {
            World {
                entries: self.entries.insert(key, self.entries[key].claim(self.global_clock)),
                ..self
            }
        } else {
            self
        }
    }

    /// The map after a commit has staged its working copies `writes` and its
    /// `removals` under the clock `stamp`.
    pub open spec fn stage(self, stamp: nat, writes: Map<K, V>, removals: Set<K>) -> World<K, V> {
        World {
            entries: Map::new(
                |key: K| self.entries.contains_key(key),
                |key: K|
                    if writes.contains_key(key) {
                        self.entries[key].stage(Some(writes[key]), stamp)
                    } else if removals.contains(key) {
                        self.entries[key].stage(None, stamp)
                    } else {
                        self.entries[key]
                    },
            ),
            ..self
        }
    }

    /// The map after a commit has moved the global clock on.
    pub open spec fn tick(self) -> World<K, V> {
        World { global_clock: self.global_clock + 1, ..self }
    }

    /// The map after a commit has published what it staged: every written
    /// entry is promoted, and every removed entry leaves the store where
    /// `unlinks` says that the store lets go of it, and stays otherwise.
    pub open spec fn publish(self, writes: Map<K, V>, removals: Set<K>, unlinks: bool) -> World<
        K,
        V,
    > {
        World {
            entries: Map::new(
                |key: K|
                    self.entries.contains_key(key) && (writes.contains_key(key) || !(unlinks
                        && removals.contains(key))),
                |key: K|
                    if writes.contains_key(key) {
                        self.entries[key].promote()
                    } else {
                        self.entries[key]
                    },
            ),
            ..self
        }
    }

    /// The map after a transaction has committed whose thread's local clock
    /// stood at `local`: it stages under the successor of `local`, moves the
    /// global clock on, and publishes, in this order.
    pub open spec fn commit(
        self,
        local: nat,
        writes: Map<K, V>,
        removals: Set<K>,
        unlinks: bool,
    ) -> World<K, V> {
        self.stage(next_clock(local), writes, removals).tick().publish(writes, removals, unlinks)
    }
}

/// The clocks alone: the global clock and the local clock of every thread
/// that has taken part, by the thread's number.
pub struct Clocks {
    pub global: nat,
    pub locals: Map<nat, nat>,
}

impl Clocks {
    /// The clocks of a new map: the global clock at one, no thread yet.
    pub open spec fn start() -> Clocks {
        Clocks { global: 1, locals: Map::empty() }
    }

    /// The local clock of `thread`, which is zero until the thread takes
    /// part.
    pub open spec fn local(self, thread: nat) -> nat {
        if self.locals.contains_key(thread) {
            self.locals[thread]
        } else {
            0
        }
    }

    /// No thread's local clock runs ahead of the global clock.
    pub open spec fn in_step(self) -> bool {
        forall|thread: nat| #[trigger] self.local(thread) <= self.global
    }

    /// The clocks after `thread` has sampled the global clock in a lookup.
    pub open spec fn sample(self, thread: nat) -> Clocks {
        Clocks { locals: self.locals.insert(thread, self.global), ..self }
    }

    /// The clocks after `thread` has committed a transaction.
    pub open spec fn commit(self, thread: nat) -> Clocks {
        Clocks {
            global: self.global + 1,
            locals: self.locals.insert(thread, next_clock(self.local(thread))),
        }
    }
}

/// The local clocks start in step with the global clock, and every lookup
/// and every commit of any thread keeps them so. The global clock never
/// moves back.
pub proof fn lemma_clocks_stay_in_step(clocks: Clocks, thread: nat)
    requires
        clocks.in_step(),
    ensures
        Clocks::start().in_step(),
        clocks.sample(thread).in_step(),
        clocks.commit(thread).in_step(),
        clocks.sample(thread).global == clocks.global,
        clocks.commit(thread).global == clocks.global + 1,
{
    assert forall|other: nat| #[trigger] clocks.sample(thread).local(other) <= clocks.sample(
        thread,
    ).global by {
        assert(clocks.local(other) <= clocks.global);
    }
    assert forall|other: nat| #[trigger] clocks.commit(thread).local(other) <= clocks.commit(
        thread,
    ).global by {
        assert(clocks.local(other) <= clocks.global);
        assert(clocks.local(thread) <= clocks.global);
    }
}

/// A reader sees the committed value of an entry on which no write is in
/// flight, and of one whose pending clock lies after the reader's sample.
pub proof fn lemma_snapshot_read<V>(entry: Entry<V>, global: nat)
    requires
        entry.new_clock == 0 || global < entry.new_clock,
    ensures
        entry.observe(global) == Some(entry.value),
{
}

/// Once a commit has staged a value under a clock, every reader whose sample
/// has reached that clock sees what was staged.
pub proof fn lemma_staged_read<V>(entry: Entry<V>, staged: Option<V>, stamp: nat, global: nat)
    requires
        0 < stamp <= global,
    ensures
        entry.stage(staged, stamp).observe(global) == staged,
{
}

/// Once a commit has published a value, every reader sees it, whatever the
/// clocks of the commit and of the reader; publishing an empty pending slot
/// leaves the committed value to be seen.
pub proof fn lemma_published_read<V>(entry: Entry<V>, staged: Option<V>, stamp: nat, global: nat)
    ensures
        entry.stage(staged, stamp).promote().new_clock == 0,
        entry.stage(staged, stamp).promote().observe(global) == Some(
            match staged {
                Some(working) => working,
                None => entry.value,
            },
        ),
{
}

/// While a writer holds an entry that it has claimed and not yet staged, a
/// lookup of the key returns nothing: the pending slot that the claim points
/// readers to is still empty.
pub proof fn lemma_claimed_entry_is_absent<K, V>(world: World<K, V>, key: K)
    requires
        world.entries.contains_key(key),
        world.entries[key].new_value is None,
        world.global_clock > 0,
    ensures
        world.claim(key).read(key) is None,
        world.claim(key).tick().read(key) is None,
{
}

/// A commit stamps its writes with a clock that lies after the local clock
/// it started from, short of the machine's largest value.
pub proof fn lemma_commit_advances(local: nat)
    requires
        local < usize::MAX,
    ensures
        next_clock(local) == local + 1,
        next_clock(local) > local,
{
}

/// Every commit moves the global clock on by exactly one, whatever it staged.
pub proof fn lemma_commit_ticks_once<K, V>(
    world: World<K, V>,
    local: nat,
    writes: Map<K, V>,
    removals: Set<K>,
    unlinks: bool,
)
    ensures
        world.commit(local, writes, removals, unlinks).global_clock == world.global_clock + 1,
{
}

/// A transaction that stages nothing still moves the global clock on by one,
/// and leaves every entry as it was.
pub proof fn lemma_empty_commit<K, V>(world: World<K, V>, local: nat, unlinks: bool)
    ensures
        world.commit(local, Map::empty(), Set::empty(), unlinks).global_clock
            == world.global_clock + 1,
        world.commit(local, Map::empty(), Set::empty(), unlinks).entries == world.entries,
{
    assert(world.commit(local, Map::empty(), Set::empty(), unlinks).entries =~= world.entries);
}

/// A commit leaves the entries alone that its transaction neither wrote nor
/// removed.
pub proof fn lemma_commit_leaves_the_rest<K, V>(
    world: World<K, V>,
    local: nat,
    writes: Map<K, V>,
    removals: Set<K>,
    unlinks: bool,
    key: K,
)
    requires
        world.entries.contains_key(key),
        !writes.contains_key(key),
        !removals.contains(key),
    ensures
        world.commit(local, writes, removals, unlinks).entries.contains_key(key),
        world.commit(local, writes, removals, unlinks).entries[key] == world.entries[key],
{
}

/// What a commit has staged stays hidden until the global clock moves: a
/// reader that samples the clock between the staging and the tick sees the
/// value committed before, where the committing thread's local clock had
/// kept up with the global one.
pub proof fn lemma_hidden_before_the_tick<K, V>(
    world: World<K, V>,
    local: nat,
    writes: Map<K, V>,
    removals: Set<K>,
    key: K,
)
    requires
        world.entries.contains_key(key),
        writes.contains_key(key) || removals.contains(key),
        local == world.global_clock,
        local < usize::MAX,
    ensures
        world.stage(next_clock(local), writes, removals).read(key) == Some(
            world.entries[key].value,
        ),
{
}

/// The writes of a commit become visible together when the global clock
/// moves: from the tick on, before the values are published, a lookup of a
/// written key returns what was written already. This holds where the
/// committing thread's local clock has not run ahead of the global one, as
/// the clocks in step never let it, and stands below the machine's largest
/// value.
pub proof fn lemma_visible_from_the_tick<K, V>(
    world: World<K, V>,
    local: nat,
    writes: Map<K, V>,
    removals: Set<K>,
    key: K,
)
    requires
        world.entries.contains_key(key),
        writes.contains_key(key),
        local <= world.global_clock,
        local < usize::MAX,
    ensures
        world.stage(next_clock(local), writes, removals).tick().read(key) == Some(writes[key]),
{
}

/// After a transaction has written a key and committed, every lookup of that
/// key returns what was written, whatever clock the reader samples, until the
/// next writer claims the entry.
pub proof fn lemma_committed_write_is_read<K, V>(
    world: World<K, V>,
    local: nat,
    writes: Map<K, V>,
    removals: Set<K>,
    unlinks: bool,
    key: K,
    global: nat,
)
    requires
        world.entries.contains_key(key),
        writes.contains_key(key),
    ensures
        world.commit(local, writes, removals, unlinks).read(key) == Some(writes[key]),
        world.commit(local, writes, removals, unlinks).entries[key].observe(global) == Some(
            writes[key],
        ),
        world.commit(local, writes, removals, unlinks).entries[key].new_clock == 0,
{
}

/// After a transaction has removed a key and committed, a lookup of that key
/// returns nothing, whether the store has let go of the entry or kept it,
/// provided the thread's local clock had not run ahead of the global clock.
pub proof fn lemma_committed_removal_is_absent<K, V>(
    world: World<K, V>,
    local: nat,
    writes: Map<K, V>,
    removals: Set<K>,
    unlinks: bool,
    key: K,
)
    requires
        removals.contains(key),
        !writes.contains_key(key),
        local <= world.global_clock,
        local < usize::MAX,
    ensures
        world.commit(local, writes, removals, unlinks).read(key) is None,
{
}

} // verus!
