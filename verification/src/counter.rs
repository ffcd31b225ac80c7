//! A clock that threads share: a counter behind an atomic.
//!
//! What the counter holds at a given moment is not visible to proofs. What
//! is visible is what each operation did: every store and every increment
//! hands back a record of itself, which only this module can make.

use crate::clock::next_clock;
use std::sync::atomic::{AtomicUsize, Ordering};
use vstd::prelude::*;

verus! {

/// A shared counter, with the value it was made with.
pub struct Counter {
    inner: AtomicUsize,
    born: Ghost<usize>,
}

/// The record of one load from a counter.
pub struct Loaded {
    counter: Ghost<Counter>,
    value: Ghost<usize>,
}

impl Loaded {
    /// The counter that was loaded from.
    pub closed spec fn counter(&self) -> Counter {
        self.counter@
    }

    /// The value that the load found.
    pub closed spec fn value(&self) -> nat {
        self.value@ as nat
    }
}

/// The record of one store into a counter.
pub struct Stored {
    counter: Ghost<Counter>,
    value: Ghost<usize>,
}

/// The record of one increment of a counter.
pub struct Ticked {
    counter: Ghost<Counter>,
    from: Ghost<usize>,
}

impl Stored {
    /// The counter that was stored into.
    pub closed spec fn counter(&self) -> Counter {
        self.counter@
    }

    /// The value that was stored.
    pub closed spec fn value(&self) -> nat {
        self.value@ as nat
    }
}

impl Ticked {
    /// The counter that was incremented.
    pub closed spec fn counter(&self) -> Counter {
        self.counter@
    }

    /// The value that the increment found.
    pub closed spec fn from(&self) -> nat {
        self.from@ as nat
    }

    /// The value that the increment left: one more than it found, and zero
    /// after the machine's largest value.
    pub open spec fn to(&self) -> nat {
        next_clock(self.from())
    }
}

impl Counter {
    /// The value that the counter was made with.
    pub closed spec fn born(&self) -> nat {
        self.born@ as nat
    }

    /// A counter that starts at `start`.
    pub(crate) fn new(start: usize) -> (counter: Counter)
        ensures
            counter.born() == start,
    {
        Counter { inner: AtomicUsize::new(start), born: Ghost(start) }
    }

    /// The value that the counter holds now.
    pub(crate) fn load(&self) -> usize {
        self.inner.load(Ordering::SeqCst)
    }

    /// The value that the counter holds now, with the record of the load.
    pub(crate) fn sample(&self) -> (found: (usize, Loaded))
        ensures
            found.1.counter() == *self,
            found.1.value() == found.0,
    {
        let value: usize = self.inner.load(Ordering::SeqCst);
        (value, Loaded { counter: Ghost(*self), value: Ghost(value) })
    }

    /// Stores `value`.
    pub(crate) fn store(&self, value: usize) -> (done: Stored)
        ensures
            done.counter() == *self,
            done.value() == value,
    {
        self.inner.store(value, Ordering::SeqCst);
        Stored { counter: Ghost(*self), value: Ghost(value) }
    }

    /// Adds one, starting over at zero after the largest value.
    pub(crate) fn bump(&self) -> (done: Ticked)
        ensures
            done.counter() == *self,
    {
        let from: usize = self.inner.fetch_add(1, Ordering::SeqCst);
        Ticked { counter: Ghost(*self), from: Ghost(from) }
    }
}

} // verus!
