use std::sync::{Arc, Condvar, Mutex};

use spinrt::blocking_pool::BlockingQueue;
use spinrt::handle::blocking::{wait_outcome, WaitOutcome};
use spinrt::handle::slot_outcome;
use spinrt::scheduler::{after_local_pop, after_steal, build_workers, stolen_task, SearchStep, StealOutcome, Task};
use spinrt::{BlockingJoinHandle, JoinHandle, Poll};

#[test]
fn blocking_queue_is_first_in_first_out() {
    let mut queue = BlockingQueue::new();
    assert!(queue.is_empty());
    queue.push("a");
    queue.push("b");
    assert_eq!(queue.len(), 2);
    assert_eq!(queue.pop(), Some("a"));
    queue.push("c");
    assert_eq!(queue.pop(), Some("b"));
    assert_eq!(queue.pop(), Some("c"));
    assert_eq!(queue.pop(), None);
    assert!(queue.is_empty());
}

#[test]
fn settle_keeps_only_pending_tasks_in_order() {
    let mut pendings = Vec::new();
    assert!(!Task::new(1).settle(Poll::Pending, &mut pendings));
    assert!(Task::new(2).settle(Poll::Ready(()), &mut pendings));
    assert!(!Task::new(3).settle(Poll::Pending, &mut pendings));
    let left: Vec<i32> = pendings.into_iter().map(|t| t.future).collect();
    assert_eq!(left, vec![1, 3]);
}

#[test]
fn only_a_successful_steal_hands_over_a_task() {
    assert_eq!(stolen_task(StealOutcome::Success(5)), Some(5));
    assert_eq!(stolen_task(StealOutcome::<i32>::Empty), None);
    assert_eq!(stolen_task(StealOutcome::<i32>::Retry), None);
}

#[test]
fn workers_share_all_stealers() {
    let workers = build_workers::<u32>(3);
    assert_eq!(workers.len(), 3);
    for worker in &workers {
        assert_eq!(worker.stealer_count(), 3);
    }
    assert!(build_workers::<u32>(0).is_empty());
}

#[test]
fn search_takes_shared_tasks_in_order() {
    let workers = build_workers::<u32>(2);
    let shared = crossbeam_deque::Injector::new();
    shared.push(1);
    shared.push(2);
    shared.push(3);
    assert_eq!(workers[0].search_tasks(&shared).0, Some(1));
    assert_eq!(workers[0].search_tasks(&shared).0, Some(2));
    assert_eq!(workers[0].search_tasks(&shared).0, Some(3));
    assert_eq!(workers[0].search_tasks(&shared).0, None);
}

#[test]
fn search_prefers_local_tasks_and_steals_from_others() {
    let workers = build_workers::<u32>(2);
    let shared = crossbeam_deque::Injector::new();
    let _ = workers[0].requeue(vec![10, 11]);
    // the other worker finds nothing of its own and steals from the first
    assert_eq!(workers[1].search_tasks(&shared).0, Some(10));
    shared.push(20);
    assert_eq!(workers[0].search_tasks(&shared).0, Some(11));
    assert_eq!(workers[0].search_tasks(&shared).0, Some(20));
    assert_eq!(workers[1].search_tasks(&shared).0, None);
}

#[test]
fn join_handle_takes_the_result_once() {
    let slot = Arc::new(Mutex::new(None));
    let handle = JoinHandle::new(Arc::clone(&slot));
    assert_eq!(handle.is_ready().0, None);
    *slot.lock().unwrap() = Some(7);
    assert_eq!(handle.is_ready().0, Some(7));
    assert_eq!(handle.is_ready().0, None);
}

#[test]
fn join_handle_is_not_ready_while_the_slot_is_locked() {
    let slot = Arc::new(Mutex::new(Some(1)));
    let handle = JoinHandle::new(Arc::clone(&slot));
    let guard = slot.lock().unwrap();
    assert_eq!(handle.is_ready().0, None);
    drop(guard);
    assert_eq!(handle.is_ready().0, Some(1));
}

#[test]
fn blocking_handle_polls_without_waiting() {
    let lock = Arc::new((Mutex::new(None), Condvar::new()));
    let handle = BlockingJoinHandle::new(Arc::clone(&lock));
    assert_eq!(handle.poll_nonblocking().0, None);
    lock.0.lock().unwrap().replace("done");
    assert_eq!(handle.poll_nonblocking().0, Some("done"));
    assert_eq!(handle.poll_nonblocking().0, None);
}

#[test]
fn submitted_tasks_reach_a_worker() {
    let workers = build_workers::<Task<&str>>(1);
    let shared = crossbeam_deque::Injector::new();
    spinrt::scheduler::submit(&shared, "first");
    spinrt::scheduler::submit(&shared, "second");
    let first = workers[0].search_tasks(&shared).0.map(|t| t.future);
    let second = workers[0].search_tasks(&shared).0.map(|t| t.future);
    assert_eq!(first, Some("first"));
    assert_eq!(second, Some("second"));
    assert!(workers[0].search_tasks(&shared).0.is_none());
}

#[test]
fn slot_outcome_takes_only_under_the_lock() {
    assert_eq!(slot_outcome(true, Some(3)), Some(3));
    assert_eq!(slot_outcome(true, None::<i32>), None);
    assert_eq!(slot_outcome(false, Some(3)), None);
}

#[test]
fn wait_outcome_reads_each_case() {
    assert_eq!(wait_outcome(true, Some(4)), WaitOutcome::Ready(4));
    assert_eq!(wait_outcome(true, None::<i32>), WaitOutcome::Pending);
    assert_eq!(wait_outcome(false, Some(4)), WaitOutcome::Poisoned);
    assert_eq!(wait_outcome(false, None::<i32>), WaitOutcome::Poisoned);
}

#[test]
fn own_queue_comes_before_the_stealers() {
    assert!(matches!(after_local_pop(Some(4), 3), SearchStep::Found(4)));
    assert!(matches!(after_local_pop(None::<i32>, 3), SearchStep::Steal(0)));
    assert!(matches!(after_local_pop(None::<i32>, 0), SearchStep::Exhausted));
}

#[test]
fn stealers_are_tried_in_order_until_one_hands_over() {
    assert!(matches!(after_steal(0, StealOutcome::Success(9), 3), SearchStep::Found(9)));
    assert!(matches!(after_steal(0, StealOutcome::<i32>::Empty, 3), SearchStep::Steal(1)));
    assert!(matches!(after_steal(1, StealOutcome::<i32>::Retry, 3), SearchStep::Steal(2)));
    assert!(matches!(after_steal(2, StealOutcome::<i32>::Empty, 3), SearchStep::Exhausted));
}
