//! The std locking primitives behind the result slots of join handles.
//!
//! What a lock holds is written and taken by other threads at any moment, so
//! nothing here states what a slot holds: each item only carries the value
//! through.
use vstd::prelude::*;

verus! {

/// `std::sync::Mutex`, held opaque.
#[verifier::external_type_specification]
#[verifier::external_body]
#[verifier::reject_recursive_types(T)]
pub struct ExMutex<T: ?Sized>(std::sync::Mutex<T>);

/// `std::sync::MutexGuard`, held opaque.
#[verifier::external_type_specification]
#[verifier::external_body]
#[verifier::reject_recursive_types(T)]
pub struct ExMutexGuard<'a, T: ?Sized + 'a>(std::sync::MutexGuard<'a, T>);

/// `std::sync::Condvar`, held opaque.
#[verifier::external_type_specification]
#[verifier::external_body]
pub struct ExCondvar(std::sync::Condvar);

/// Calls `Mutex::try_lock`: the guard when the lock was free, `None` when
/// another thread holds it or a thread panicked while holding it.
#[verifier::external_body]
pub(crate) fn try_lock<'a, T>(mutex: &'a std::sync::Mutex<T>) -> Option<std::sync::MutexGuard<'a, T>> {
    mutex.try_lock().ok()
}

/// Calls `Option::take` on the value behind a held lock: the value that the
/// slot held, leaving `None` in it.
#[verifier::external_body]
pub(crate) fn take_locked<T>(guard: &mut std::sync::MutexGuard<'_, Option<T>>) -> Option<T> {
    guard.take()
}

} // verus!
