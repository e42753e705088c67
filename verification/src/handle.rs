//! Handles to the results of spawned tasks.
use vstd::prelude::*;

use std::sync::{Arc, Mutex};

use crate::sync;

pub mod blocking;

verus! {

/// What a non-blocking read of a result slot gives when the lock attempt
/// succeeded (`locked`) and the take gave `taken`.
pub open spec fn slot_result<T>(locked: bool, taken: Option<T>) -> Option<T> {
    if locked {
        taken
    } else {
        None
    }
}

/// What a non-blocking read of a result slot gives, from what the lock attempt
/// and the take gave: the taken value when the lock was free, `None` when it
/// was held elsewhere (nothing was taken then).
pub fn slot_outcome<T>(locked: bool, taken: Option<T>) -> (result: Option<T>)
    ensures
        result == slot_result(locked, taken),
{
    if locked {
        taken
    } else {
        None
    }
}

/// Takes the value out of a result slot if the slot's lock is free; `None`
/// when the lock is held elsewhere or the slot is empty. Whether the lock is
/// free and what the slot holds are up to other threads, so the result is
/// `slot_outcome` of whatever the lock attempt and the take gave; the second
/// half of the result records those two (nothing is taken without the lock).
pub(crate) fn take_if_unlocked<T>(slot: &Mutex<Option<T>>) -> (found: (
    Option<T>,
    Ghost<(bool, Option<T>)>,
))
    ensures
        found.0 == slot_result(found.1@.0, found.1@.1),
        !found.1@.0 ==> found.1@.1 is None,
{
    match sync::try_lock(slot) {
        Some(mut guard) => {
            let taken = sync::take_locked(&mut guard);
            let ghost trace = (true, taken);
            (slot_outcome(true, taken), Ghost(trace))
        },
        None => (slot_outcome(false, None), Ghost((false, None))),
    }
}

/// The handle to the result of an asynchronous task.
#[verifier::reject_recursive_types(T)]
pub struct JoinHandle<T>(Arc<Mutex<Option<T>>>);

impl<T: 'static + Send> JoinHandle<T> {
    /// The slot that the task writes its result into.
    pub closed spec fn slot(&self) -> Arc<Mutex<Option<T>>> {
        self.0
    }

    /// A handle on the result slot `inner`.
    pub fn new(inner: Arc<Mutex<Option<T>>>) -> (handle: Self)
        ensures
            handle.slot() == inner,
    {
        JoinHandle(inner)
    }

    /// Takes the task's result if it has been written and nobody else holds
    /// the slot right now; `None` otherwise. Once taken, the result is gone
    /// from the slot. The slot is shared with the task's thread, so the
    /// result is `slot_outcome` of what the lock attempt and the take gave,
    /// and the second half of the result records those two: whether the lock
    /// was free, and what the take gave (nothing without the lock).
    pub fn is_ready(&self) -> (found: (Option<T>, Ghost<(bool, Option<T>)>))
        ensures
            found.0 == slot_result(found.1@.0, found.1@.1),
            !found.1@.0 ==> found.1@.1 is None,
    {
        take_if_unlocked(&*self.0)
    }
}

} // verus!
