//! The crossbeam-deque queues behind the scheduler, and the records that each
//! queue operation hands back.
//!
//! What a queue holds is changed by other threads at any moment, so nothing
//! here states it. What each operation records instead is which queue it was
//! made on and what it handed over; those records can only come from the
//! operations themselves, so a caller's contract can speak of the operations
//! it really made.
use vstd::prelude::*;

use crate::scheduler::StealOutcome;

verus! {

/// A worker's own queue, `crossbeam_deque::Worker`, held opaque.
#[verifier::external_type_specification]
#[verifier::external_body]
#[verifier::reject_recursive_types(T)]
pub struct ExWorkerQueue<T>(crossbeam_deque::Worker<T>);

/// A handle for stealing from a worker's queue, `crossbeam_deque::Stealer`, held opaque.
#[verifier::external_type_specification]
#[verifier::external_body]
#[verifier::reject_recursive_types(T)]
pub struct ExStealer<T>(crossbeam_deque::Stealer<T>);

/// The queue shared by all workers, `crossbeam_deque::Injector`, held opaque.
#[verifier::external_type_specification]
#[verifier::external_body]
#[verifier::reject_recursive_types(T)]
pub struct ExInjector<T>(crossbeam_deque::Injector<T>);

/// A stealer together with the queue it steals from.
#[verifier::reject_recursive_types(T)]
pub struct QueueStealer<T> {
    stealer: crossbeam_deque::Stealer<T>,
    queue: Ghost<crossbeam_deque::Worker<T>>,
}

impl<T> QueueStealer<T> {
    /// The queue that this stealer takes tasks from.
    pub closed spec fn queue(&self) -> crossbeam_deque::Worker<T> {
        self.queue@
    }
}

/// The record of one steal attempt: the queue it was made on and what it gave.
#[verifier::reject_recursive_types(T)]
pub struct StealAttempt<T> {
    outcome: StealOutcome<T>,
    queue: Ghost<crossbeam_deque::Worker<T>>,
}

impl<T> StealAttempt<T> {
    /// The queue that the attempt stole from.
    pub closed spec fn queue(&self) -> crossbeam_deque::Worker<T> {
        self.queue@
    }

    /// What the attempt gave.
    pub closed spec fn outcome(&self) -> StealOutcome<T> {
        self.outcome
    }

    /// What the attempt gave, as a value.
    pub fn into_outcome(self) -> (outcome: StealOutcome<T>)
        ensures
            outcome == self.outcome(),
    {
        self.outcome
    }
}

/// The record of one pop of a worker's own queue: the queue and what it gave.
#[verifier::reject_recursive_types(T)]
pub struct LocalPop<T> {
    task: Option<T>,
    queue: Ghost<crossbeam_deque::Worker<T>>,
}

impl<T> LocalPop<T> {
    /// The queue that was popped.
    pub closed spec fn queue(&self) -> crossbeam_deque::Worker<T> {
        self.queue@
    }

    /// What the pop gave.
    pub closed spec fn task(&self) -> Option<T> {
        self.task
    }

    /// What the pop gave, as a value.
    pub fn into_task(self) -> (task: Option<T>)
        ensures
            task == self.task(),
    {
        self.task
    }
}

/// The record of one push onto a worker's own queue: the queue and the task.
#[verifier::reject_recursive_types(T)]
pub struct LocalPush<T> {
    task: Ghost<T>,
    queue: Ghost<crossbeam_deque::Worker<T>>,
}

impl<T> LocalPush<T> {
    /// The queue that received the task.
    pub closed spec fn queue(&self) -> crossbeam_deque::Worker<T> {
        self.queue@
    }

    /// The task pushed.
    pub closed spec fn task(&self) -> T {
        self.task@
    }
}

/// Calls `crossbeam_deque::Worker::new_fifo`: a new queue whose owner pops
/// tasks in the order they were pushed.
#[verifier::external_body]
pub(crate) fn new_fifo_queue<T>() -> crossbeam_deque::Worker<T> {
    crossbeam_deque::Worker::new_fifo()
}

/// Calls `crossbeam_deque::Worker::stealer`: a handle through which other
/// threads steal from `queue`, recorded with that queue.
#[verifier::external_body]
pub(crate) fn stealer_of<T>(queue: &crossbeam_deque::Worker<T>) -> (stealer: QueueStealer<T>)
    ensures
        stealer.queue() == *queue,
{
    QueueStealer { stealer: queue.stealer(), queue: Ghost(*queue) }
}

/// Calls `crossbeam_deque::Worker::push`, recorded with the queue and the
/// task. Nothing is stated of the queue's contents: its stealers take tasks
/// from it at any moment.
#[verifier::external_body]
pub(crate) fn push_local<T>(queue: &crossbeam_deque::Worker<T>, task: T) -> (pushed: LocalPush<T>)
    ensures
        pushed.queue() == *queue,
        pushed.task() == task,
{
    let pushed = LocalPush { task: Ghost(task), queue: Ghost(*queue) };
    queue.push(task);
    pushed
}

/// Calls `crossbeam_deque::Worker::pop`: the next task of the queue, if one
/// is left, recorded with the queue. Stealers on other threads empty the
/// queue concurrently, so which task comes back is not stated.
#[verifier::external_body]
pub(crate) fn pop_local<T>(queue: &crossbeam_deque::Worker<T>) -> (popped: LocalPop<T>)
    ensures
        popped.queue() == *queue,
{
    LocalPop { task: queue.pop(), queue: Ghost(*queue) }
}

/// Calls `crossbeam_deque::Injector::push`. Nothing is stated of the shared
/// queue's contents: every worker takes tasks from it at any moment.
#[verifier::external_body]
pub(crate) fn push_shared<T>(shared: &crossbeam_deque::Injector<T>, task: T) {
    shared.push(task)
}

/// Calls `crossbeam_deque::Stealer::steal` and gives its outcome variant by
/// variant, recorded with the queue stolen from. What the outcome is depends
/// on other threads and is not stated.
#[verifier::external_body]
pub(crate) fn steal_from<T>(stealer: &QueueStealer<T>) -> (attempt: StealAttempt<T>)
    ensures
        attempt.queue() == stealer.queue(),
{
    let outcome = match stealer.stealer.steal() {
        crossbeam_deque::Steal::Empty => StealOutcome::Empty,
        crossbeam_deque::Steal::Success(task) => StealOutcome::Success(task),
        crossbeam_deque::Steal::Retry => StealOutcome::Retry,
    };
    StealAttempt { outcome, queue: Ghost(stealer.queue@) }
}

/// Calls `crossbeam_deque::Injector::steal_batch`: moves some of the shared
/// queue's tasks, how many the crate leaves open, into `dest`.
#[verifier::external_body]
pub(crate) fn refill_from<T>(
    shared: &crossbeam_deque::Injector<T>,
    dest: &crossbeam_deque::Worker<T>,
) -> StealOutcome<()> {
    match shared.steal_batch(dest) {
        crossbeam_deque::Steal::Empty => StealOutcome::Empty,
        crossbeam_deque::Steal::Success(()) => StealOutcome::Success(()),
        crossbeam_deque::Steal::Retry => StealOutcome::Retry,
    }
}

} // verus!
