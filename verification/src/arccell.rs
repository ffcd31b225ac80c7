//! One-slot mailboxes for a shared value.
//!
//! What a slot holds at a given moment is not visible to proofs: other
//! threads may replace it between two calls. What is visible is what a slot
//! was made with and what each store put into it: a store hands back a record
//! of itself, which only this module can make.

use crate::sync::{load_slot, new_slot, swap_slot};
use std::sync::Arc;
use vstd::prelude::*;

verus! {

/// An optional shared value behind a mutex that is held only for the span of
/// one operation. Each operation takes effect at one instant; threads that
/// share the slot see its operations in one order.
#[verifier::reject_recursive_types(T)]
pub struct ArcOption<T>(parking_lot::Mutex<Option<Arc<T>>>, Ghost<Option<T>>);

/// The record of one store into an optional slot.
#[verifier::reject_recursive_types(T)]
pub struct Put<T> {
    slot: Ghost<ArcOption<T>>,
    value: Ghost<Option<T>>,
}

impl<T> Put<T> {
    /// The slot that was stored into.
    pub closed spec fn slot(&self) -> ArcOption<T> {
        self.slot@
    }

    /// The value that was stored, none where the slot was emptied.
    pub closed spec fn value(&self) -> Option<T> {
        self.value@
    }
}

/// The value behind a handle.
pub open spec fn shared<T>(handle: Arc<T>) -> T {
    *handle
}

/// The value behind an optional handle.
pub open spec fn held<T>(handle: Option<Arc<T>>) -> Option<T> {
    match handle {
        Some(shared) => Some(*shared),
        None => None,
    }
}

impl<T> ArcOption<T> {
    /// The value that the slot was made with.
    pub closed spec fn born(&self) -> Option<T> {
        self.1@
    }

    /// An empty slot.
    pub fn none() -> (slot: ArcOption<T>)
        ensures
            slot.born() is None,
    {
        let empty: Option<Arc<T>> = None;
        let ghost born = held(empty);
        ArcOption(new_slot(empty), Ghost(born))
    }

    /// A handle to the current occupant, which stays in the slot.
    pub fn get(&self) -> Option<Arc<T>> {
        load_slot(&self.0)
    }

    /// Replaces the occupant, whatever it was.
    pub fn set(&self, t: Option<Arc<T>>) {
        let _ = self.put(t);
    }

    /// Replaces the occupant and hands back the record of the store.
    pub(crate) fn put(&self, t: Option<Arc<T>>) -> (done: Put<T>)
        ensures
            done.slot() == *self,
            done.value() == held(t),
    {
        let ghost value = held(t);
        let _ = swap_slot(&self.0, t);
        Put { slot: Ghost(*self), value: Ghost(value) }
    }

    /// Empties the slot and returns the occupant.
    pub fn take(&self) -> Option<Arc<T>> {
        self.pull().0
    }

    /// Empties the slot and returns the occupant with the record of the
    /// store that emptied it.
    pub(crate) fn pull(&self) -> (taken: (Option<Arc<T>>, Put<T>))
        ensures
            taken.1.slot() == *self,
            taken.1.value() is None,
    {
        let empty: Option<Arc<T>> = None;
        let ghost value = held(empty);
        let occupant = swap_slot(&self.0, empty);
        (occupant, Put { slot: Ghost(*self), value: Ghost(value) })
    }
}

/// A shared value behind a mutex that is held only for the span of one
/// operation: a slot that is never empty.
#[verifier::reject_recursive_types(T)]
pub struct ArcCell<T> {
    inner: parking_lot::Mutex<Arc<T>>,
    born: Ghost<T>,
}

/// The record of one store into a slot that is never empty.
#[verifier::reject_recursive_types(T)]
pub struct Kept<T> {
    slot: Ghost<ArcCell<T>>,
    value: Ghost<T>,
}

impl<T> Kept<T> {
    /// The slot that was stored into.
    pub closed spec fn slot(&self) -> ArcCell<T> {
        self.slot@
    }

    /// The value that was stored.
    pub closed spec fn value(&self) -> T {
        self.value@
    }
}

impl<T> ArcCell<T> {
    /// The value that the slot was made with.
    pub closed spec fn born(&self) -> T {
        self.born@
    }

    /// A slot that holds `handle`.
    pub(crate) fn new(handle: Arc<T>) -> (slot: ArcCell<T>)
        ensures
            slot.born() == *handle,
    {
        let ghost born = shared(handle);
        ArcCell { inner: new_slot(handle), born: Ghost(born) }
    }

    /// A handle to the current occupant, which stays in the slot.
    pub(crate) fn get(&self) -> Arc<T> {
        load_slot(&self.inner)
    }

    /// Replaces the occupant and hands back the record of the store.
    pub(crate) fn put(&self, handle: Arc<T>) -> (done: Kept<T>)
        ensures
            done.slot() == *self,
            done.value() == *handle,
    {
        let ghost value = shared(handle);
        let _ = swap_slot(&self.inner, handle);
        Kept { slot: Ghost(*self), value: Ghost(value) }
    }
}

} // verus!
