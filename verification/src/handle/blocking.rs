//! Handles to the results of jobs on the blocking pool.
use vstd::prelude::*;

use std::sync::{Arc, Condvar, Mutex};

use crate::handle::{slot_result, take_if_unlocked};

verus! {

/// What one wait for a blocking job's result gave.
#[derive(Debug, PartialEq, Eq, Structural)]
pub enum WaitOutcome<T> {
    /// The result, now taken from the slot.
    Ready(T),
    /// Woken up with the slot still empty.
    Pending,
    /// A thread panicked while holding the slot's lock.
    Poisoned,
}

/// What one blocking wait for a job's result gives, from what the lock, the
/// wait on the condition variable and the take gave: `Poisoned` when the lock
/// could not be taken (before or after the wait), otherwise the taken value
/// or, when the slot was empty, `Pending`.
pub fn wait_outcome<T>(relocked: bool, taken: Option<T>) -> (outcome: WaitOutcome<T>)
    ensures
        outcome == (if !relocked {
            WaitOutcome::Poisoned
        } else {
            match taken {
                Some(v) => WaitOutcome::Ready(v),
                None => WaitOutcome::Pending,
            }
        }),
{
    if !relocked {
        WaitOutcome::Poisoned
    } else {
        match taken {
            Some(result) => WaitOutcome::Ready(result),
            None => WaitOutcome::Pending,
        }
    }
}

/// The handle to the result of a job on the blocking pool: a result slot and
/// the condition variable that the job notifies once it has written it.
#[verifier::reject_recursive_types(T)]
pub struct BlockingJoinHandle<T>(Arc<(Mutex<Option<T>>, Condvar)>);

impl<T: 'static + Send> BlockingJoinHandle<T> {
    /// The slot and condition variable that the job reports through.
    pub closed spec fn shared(&self) -> Arc<(Mutex<Option<T>>, Condvar)> {
        self.0
    }

    /// A handle on the slot and condition variable `lock`.
    pub fn new(lock: Arc<(Mutex<Option<T>>, Condvar)>) -> (handle: Self)
        ensures
            handle.shared() == lock,
    {
        BlockingJoinHandle(lock)
    }

    /// The slot and condition variable, for a caller that blocks on them.
    pub fn slot_and_signal(&self) -> (shared: &Arc<(Mutex<Option<T>>, Condvar)>)
        ensures
            *shared == self.shared(),
    {
        &self.0
    }

    /// Takes the job's result if it has been written and nobody else holds
    /// the slot right now; `None` otherwise. The slot is shared with the job's
    /// thread, so the result is `slot_outcome` of what the lock attempt and
    /// the take gave, and the second half of the result records those two:
    /// whether the lock was free, and what the take gave (nothing without the
    /// lock). The condition variable is neither waited on nor notified.
    pub fn poll_nonblocking(&self) -> (found: (Option<T>, Ghost<(bool, Option<T>)>))
        ensures
            found.0 == slot_result(found.1@.0, found.1@.1),
            !found.1@.0 ==> found.1@.1 is None,
    {
        take_if_unlocked(&self.0.0)
    }
}

} // verus!
