//! The locks of `parking_lot` as the map uses them.
//!
//! What a lock guards and who holds it is not visible to proofs, so the
//! functions here carry no postcondition: they are the places where the map
//! relies on `parking_lot` to exclude, to block and to wake up as documented.

use vstd::prelude::*;

verus! {

/// `parking_lot::RawMutex`, a mutex that guards no data. Carried through
/// as it is: nothing inside it is read.
#[verifier::external_type_specification]
#[verifier::external_body]
pub struct ExRawMutex(parking_lot::RawMutex);

/// `parking_lot::RawRwLock`, a reader-writer lock that guards no data.
/// Carried through as it is.
#[verifier::external_type_specification]
#[verifier::external_body]
pub struct ExRawRwLock(parking_lot::RawRwLock);

/// `lock_api::Mutex`, of which `parking_lot::Mutex` is the instance over
/// `parking_lot::RawMutex`: a mutex around a value. Carried through as it is.
#[verifier::external_type_specification]
#[verifier::external_body]
#[verifier::reject_recursive_types(R)]
#[verifier::reject_recursive_types(T)]
pub struct ExMutex<R, T: ?Sized>(parking_lot::lock_api::Mutex<R, T>);

/// `RawMutex::INIT` of `parking_lot`: a mutex that nobody holds.
#[verifier::external_body]
pub(crate) fn new_mutex() -> parking_lot::RawMutex {
    <parking_lot::RawMutex as parking_lot::lock_api::RawMutex>::INIT
}

/// `RawMutex::lock` of `parking_lot`: returns once the calling thread holds
/// the mutex, which no other thread then does. It does not return while
/// another holder, or the caller itself, keeps the mutex.
#[verifier::external_body]
pub(crate) fn acquire(mutex: &parking_lot::RawMutex) {
    parking_lot::lock_api::RawMutex::lock(mutex)
}

/// `RawMutex::unlock` of `parking_lot`: gives the mutex up. The caller must
/// hold it.
#[verifier::external_body]
pub(crate) fn release(mutex: &parking_lot::RawMutex) {
    parking_lot::lock_api::RawMutex::unlock(mutex)
}

/// `RawRwLock::INIT` of `parking_lot`: a reader-writer lock that nobody holds.
#[verifier::external_body]
pub(crate) fn new_rwlock() -> parking_lot::RawRwLock {
    <parking_lot::RawRwLock as parking_lot::lock_api::RawRwLock>::INIT
}

/// `RawRwLockRecursive::lock_shared_recursive` of `parking_lot`: returns once
/// the calling thread holds the lock on the shared side, together with any
/// number of other readers and with no writer. While a reader holds the lock
/// the caller is let in at once, even when a writer waits, so that a thread
/// may take the shared side again. It does not return while a writer holds
/// the lock, and it panics where the lock's count of readers would overflow,
/// at a sixteenth of the largest machine word.
#[verifier::external_body]
pub(crate) fn enter_shared(lock: &parking_lot::RawRwLock) {
    parking_lot::lock_api::RawRwLockRecursive::lock_shared_recursive(lock)
}

/// `RawRwLock::unlock_shared` of `parking_lot`: gives up one hold of the
/// shared side. The caller must have one.
#[verifier::external_body]
pub(crate) fn leave_shared(lock: &parking_lot::RawRwLock) {
    parking_lot::lock_api::RawRwLock::unlock_shared(lock)
}

/// `RawRwLock::lock_exclusive` of `parking_lot`: returns once the calling
/// thread holds the lock alone, after every reader has left. It does not
/// return while anyone, the caller included, holds either side.
#[verifier::external_body]
pub(crate) fn enter_exclusive(lock: &parking_lot::RawRwLock) {
    parking_lot::lock_api::RawRwLock::lock_exclusive(lock)
}

/// `RawRwLock::unlock_exclusive` of `parking_lot`: gives the exclusive side
/// up. The caller must hold it.
#[verifier::external_body]
pub(crate) fn leave_exclusive(lock: &parking_lot::RawRwLock) {
    parking_lot::lock_api::RawRwLock::unlock_exclusive(lock)
}

/// `Mutex::new` of `parking_lot`: a new, unlocked mutex around `content`.
#[verifier::external_body]
pub(crate) fn new_slot<V>(content: V) -> parking_lot::Mutex<V> {
    parking_lot::Mutex::new(content)
}

/// `Mutex::lock` of `parking_lot`, held for as long as it takes to copy out
/// what the mutex guards at the moment of the call. Another thread may have
/// replaced it since any earlier call, so nothing is claimed of the copy.
#[verifier::external_body]
pub(crate) fn load_slot<V: Clone>(slot: &parking_lot::Mutex<V>) -> V {
    slot.lock().clone()
}

/// `Mutex::lock` of `parking_lot`, held for as long as it takes to put
/// `content` in the place of what the mutex guards and to hand the former
/// content out. Nothing is claimed of the former content, for the same reason.
#[verifier::external_body]
pub(crate) fn swap_slot<V>(slot: &parking_lot::Mutex<V>, content: V) -> V {
    std::mem::replace(&mut *slot.lock(), content)
}

} // verus!
