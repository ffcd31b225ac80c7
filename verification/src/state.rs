//! The bookkeeping that each thread keeps for itself.

use crate::clock::{commit_clock, next_clock};
use vstd::cell::invcell::InvCell;
use vstd::predicate::Predicate;
use vstd::prelude::*;

verus! {

/// Every clock value may stand in a thread's local clock.
struct AnyClock;

impl Predicate<usize> for AnyClock {
    open spec fn predicate(&self, v: usize) -> bool {
        true
    }
}

/// The record of one lookup's note in a local clock: the sample of the
/// global clock that was stored there.
pub struct Observed {
    value: Ghost<usize>,
}

impl Observed {
    /// The sample that was stored as the local clock.
    pub closed spec fn value(&self) -> nat {
        self.value@ as nat
    }
}

/// The record of one advance of a local clock: the clock that the commit
/// found and the stamp that it left.
pub struct Stamped {
    found: Ghost<usize>,
    stamp: Ghost<usize>,
}

impl Stamped {
    /// The local clock that the commit found.
    pub closed spec fn found(&self) -> nat {
        self.found@ as nat
    }

    /// The stamp of the commit, which the local clock holds afterwards.
    pub closed spec fn stamp(&self) -> nat {
        self.stamp@ as nat
    }
}

/// One thread's state: its local clock, the last global clock that the thread
/// observed or, after a commit, the clock that it stamped on its writes.
pub struct ThreadState {
    local_clock: InvCell<usize, AnyClock>,
    born: Ghost<usize>,
}

impl ThreadState {
    /// The local clock that the state was made with.
    pub closed spec fn born(&self) -> nat {
        self.born@ as nat
    }

    /// The local clock as it stands.
    pub fn local_clock(&self) -> usize {
        self.local_clock.get()
    }

    /// Records `global` as the last global clock that this thread observed.
    pub(crate) fn observe(&self, global: usize) -> (done: Observed)
        ensures
            done.value() == global,
    {
        self.local_clock.set(global);
        Observed { value: Ghost(global) }
    }

    /// Moves the local clock on to the clock of a commit: the successor of
    /// the clock found. Returns the stamp with the record of the advance.
    pub(crate) fn advance(&self) -> (moved: (usize, Stamped))
        ensures
            moved.1.stamp() == moved.0,
            moved.1.stamp() == next_clock(moved.1.found()),
    {
        let found: usize = self.local_clock.get();
        let stamp: usize = commit_clock(found);
        self.local_clock.set(stamp);
        (stamp, Stamped { found: Ghost(found), stamp: Ghost(stamp) })
    }
}

impl Default for ThreadState {
    /// A state whose local clock is zero.
    fn default() -> (state: ThreadState)
        ensures
            state.born() == 0,
    {
        let start: usize = 0;
        ThreadState { local_clock: InvCell::new(start, Ghost(AnyClock)), born: Ghost(start) }
    }
}

} // verus!
