//! What the map asks of its two collaborators: the store that holds the
//! entries and the accessor of the calling thread's state.

use std::sync::Arc;
use vstd::prelude::*;

verus! {

/// Scoped access to a value that belongs to the calling thread alone.
///
/// An implementation must hand threads that run at the same time different
/// values: the map relies on it and cannot check it.
pub trait ThreadLocal<T> {
    /// Runs `f` on the calling thread's value and returns what `f` returned.
    fn with<F: FnOnce(&T) -> R, R>(&self, f: F) -> (outcome: R)
        requires
            forall|state: &T| call_requires(f, (state,)),
        ensures
            exists|state: &T| call_ensures(f, (state,), outcome),
    ;
}

/// A keyed store of shared entries.
///
/// Other threads may change the store between two calls, so neither method
/// promises anything about what it returns.
pub trait Storage<T> {
    type Key: Ord;

    /// The entry bound to `key`, if there is one. Leaves the store as it is.
    fn get(&self, key: &Self::Key) -> Option<Arc<T>>;

    /// Removes the binding of `key`, if there is one, and returns the entry
    /// that was bound.
    fn remove(&self, key: &Self::Key) -> Option<Arc<T>>;
}

/// A store that takes new bindings.
pub trait Insertable<T>: Storage<T> {
    /// Binds `key` to a new entry holding `val` and returns the entry that
    /// was bound before, if there was one.
    fn insert(&self, key: Self::Key, val: T) -> Option<Arc<T>>;
}

/// A store that picks the key of a new binding itself.
pub trait Allocable<T>: Storage<T> {
    /// Binds a fresh key to a new entry holding `val` and returns the key.
    fn allocate(&self, val: T) -> Self::Key;
}

} // verus!
