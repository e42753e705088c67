//! Tasks and the worker side of the work-stealing scheduler.
//!
//! Each worker owns a FIFO queue; every worker holds a stealer for every
//! queue, and all of them refill from one shared injector queue.
use vstd::prelude::*;

use std::sync::Arc;

use crate::deque::{
    new_fifo_queue, pop_local, push_local, push_shared, refill_from, steal_from, stealer_of,
    LocalPop, LocalPush, QueueStealer, StealAttempt,
};
use crate::Poll;

verus! {

/// What one attempt to steal from another queue gave.
pub enum StealOutcome<T> {
    /// The queue was empty.
    Empty,
    /// A task was stolen.
    Success(T),
    /// The attempt lost a race and may be repeated.
    Retry,
}

/// The task that a steal attempt handed over, if any.
pub fn stolen_task<T>(outcome: StealOutcome<T>) -> (task: Option<T>)
    ensures
        task == (match outcome {
            StealOutcome::Success(t) => Some(t),
            _ => None,
        }),
{
    match outcome {
        StealOutcome::Success(task) => Some(task),
        _ => None,
    }
}

/// Where the search for a task to run stands.
pub enum SearchStep<T> {
    /// A task was found.
    Found(T),
    /// The stealer at this index is to be tried next.
    Steal(usize),
    /// Every source came back empty.
    Exhausted,
}

/// The step after the worker's own queue gave `popped`, with `stealer_count`
/// stealers to fall back on.
pub open spec fn local_step<T>(popped: Option<T>, stealer_count: nat) -> SearchStep<T> {
    match popped {
        Some(t) => SearchStep::Found(t),
        None => if 0 < stealer_count {
            SearchStep::Steal(0)
        } else {
            SearchStep::Exhausted
        },
    }
}

/// The step after the stealer at `index` gave `outcome`, out of `stealer_count`.
pub open spec fn steal_step<T>(index: nat, outcome: StealOutcome<T>, stealer_count: nat) -> SearchStep<T> {
    match outcome {
        StealOutcome::Success(t) => SearchStep::Found(t),
        _ => if index + 1 < stealer_count {
            SearchStep::Steal((index + 1) as usize)
        } else {
            SearchStep::Exhausted
        },
    }
}

/// How many stealers a search at `step` may still try.
pub open spec fn steps_left<T>(step: SearchStep<T>, stealer_count: nat) -> int {
    match step {
        SearchStep::Steal(i) => stealer_count - i,
        _ => 0,
    }
}

/// The first step of a search: the task from the worker's own queue if it
/// gave one, else the first stealer, else nothing left to try.
pub fn after_local_pop<T>(popped: Option<T>, stealer_count: usize) -> (step: SearchStep<T>)
    ensures
        step == local_step(popped, stealer_count as nat),
{
    match popped {
        Some(task) => SearchStep::Found(task),
        None => if 0 < stealer_count {
            SearchStep::Steal(0)
        } else {
            SearchStep::Exhausted
        },
    }
}

/// The step after trying the stealer at `index`: its task if it handed one
/// over, else the next stealer in index order, else nothing left to try.
pub fn after_steal<T>(index: usize, outcome: StealOutcome<T>, stealer_count: usize) -> (step: SearchStep<T>)
    requires
        index < stealer_count,
    ensures
        step == steal_step(index as nat, outcome, stealer_count as nat),
{
    match stolen_task(outcome) {
        Some(task) => SearchStep::Found(task),
        None => if index + 1 < stealer_count {
            SearchStep::Steal(index + 1)
        } else {
            SearchStep::Exhausted
        },
    }
}

/// Where a search ends when, from `step` on, the stealer at index `i` would
/// give `outcomes[i]` (for as many stealers as a `usize` counts).
pub open spec fn run_search<T>(step: SearchStep<T>, outcomes: Seq<StealOutcome<T>>) -> SearchStep<T>
    decreases steps_left(step, outcomes.len()),
{
    match step {
        SearchStep::Steal(i) => if i < outcomes.len() <= usize::MAX {
            run_search(steal_step(i as nat, outcomes[i as int], outcomes.len()), outcomes)
        } else {
            step
        },
        _ => step,
    }
}

/// The first task that the stealers from index `from` on would hand over.
pub open spec fn first_stolen<T>(outcomes: Seq<StealOutcome<T>>, from: int) -> Option<T>
    decreases outcomes.len() - from,
{
    if from < 0 || from >= outcomes.len() {
        None
    } else {
        match outcomes[from] {
            StealOutcome::Success(t) => Some(t),
            _ => first_stolen(outcomes, from + 1),
        }
    }
}

proof fn lemma_run_from_stealer<T>(i: int, outcomes: Seq<StealOutcome<T>>)
    requires
        0 <= i < outcomes.len() <= usize::MAX,
    ensures
        run_search(SearchStep::Steal(i as usize), outcomes) == (match first_stolen(outcomes, i) {
            Some(t) => SearchStep::Found(t),
            None => SearchStep::<T>::Exhausted,
        }),
    decreases outcomes.len() - i,
{
    let n = outcomes.len();
    let next = steal_step(i as nat, outcomes[i], n);
    assert(((i as usize) as int) == i);
    assert(run_search(SearchStep::Steal(i as usize), outcomes) == run_search(next, outcomes));
    match outcomes[i] {
        StealOutcome::Success(t) => {
            assert(next == SearchStep::Found(t));
        },
        _ => {
            if i + 1 < n {
                assert(next == SearchStep::<T>::Steal((i + 1) as usize));
                lemma_run_from_stealer(i + 1, outcomes);
            } else {
                assert(next == SearchStep::<T>::Exhausted);
                assert(first_stolen(outcomes, i + 1) == None::<T>);
            }
        },
    }
}

/// The order of a search: a worker's own queue comes first; only when it is
/// empty are the stealers tried, in index order, and the first that hands
/// over a task ends the search; the search comes back empty only after every
/// stealer did.
pub proof fn lemma_search_order<T>(popped: Option<T>, outcomes: Seq<StealOutcome<T>>)
    requires
        outcomes.len() <= usize::MAX,
    ensures
        run_search(local_step(popped, outcomes.len()), outcomes) == (match popped {
            Some(t) => SearchStep::Found(t),
            None => match first_stolen(outcomes, 0) {
                Some(t) => SearchStep::Found(t),
                None => SearchStep::<T>::Exhausted,
            },
        }),
{
    if popped is None && outcomes.len() > 0 {
        lemma_run_from_stealer(0, outcomes);
    }
}

/// The task that a steal attempt handed over, if any.
pub open spec fn stolen<T>(outcome: StealOutcome<T>) -> Option<T> {
    match outcome {
        StealOutcome::Success(t) => Some(t),
        _ => None,
    }
}

/// Whether `popped` (what the local pop gave) and `outcomes` (what each steal
/// attempt gave, in stealer order) describe a search over `stealer_count`
/// stealers: the stealers are tried only when the local pop gave nothing, at
/// most once each, in order, until the first that hands over a task; all of
/// them are tried unless one does.
pub open spec fn search_trace_valid<T>(
    popped: Option<T>,
    outcomes: Seq<StealOutcome<T>>,
    stealer_count: nat,
) -> bool {
    &&& outcomes.len() <= stealer_count
    &&& popped is Some ==> outcomes.len() == 0
    &&& popped is None ==> (outcomes.len() == stealer_count || (outcomes.len() > 0
        && outcomes.last() is Success))
    &&& forall|j: int| 0 <= j < outcomes.len() - 1 ==> !(#[trigger] outcomes[j] is Success)
}

/// The task that a search finds: the local one, else what the last steal
/// attempt handed over.
pub open spec fn search_found<T>(popped: Option<T>, outcomes: Seq<StealOutcome<T>>) -> Option<T> {
    match popped {
        Some(t) => Some(t),
        None => if outcomes.len() > 0 {
            stolen(outcomes.last())
        } else {
            None
        },
    }
}

/// What holds at each step of a search: while stealers remain to be tried,
/// none tried so far handed over a task; once it ends, the trace is valid and
/// fixes the task found.
pub open spec fn search_invariant<T>(
    step: SearchStep<T>,
    popped: Option<T>,
    outcomes: Seq<StealOutcome<T>>,
    stealer_count: nat,
) -> bool {
    match step {
        SearchStep::Steal(i) => {
            &&& popped is None
            &&& outcomes.len() == i
            &&& i < stealer_count
            &&& forall|j: int| 0 <= j < outcomes.len() ==> !(#[trigger] outcomes[j] is Success)
        },
        SearchStep::Found(t) => {
            &&& search_trace_valid(popped, outcomes, stealer_count)
            &&& search_found(popped, outcomes) == Some(t)
        },
        SearchStep::Exhausted => {
            &&& search_trace_valid(popped, outcomes, stealer_count)
            &&& search_found(popped, outcomes) is None
        },
    }
}

/// Hands a new task running `future` to the workers through the shared queue.
pub fn submit<F>(shared: &crossbeam_deque::Injector<Task<F>>, future: F) {
    push_shared(shared, Task::new(future));
}

/// A spawned computation: the future that a worker polls.
pub struct Task<F> {
    pub future: F,
}

impl<F> Task<F> {
    /// A task that runs `future`.
    pub fn new(future: F) -> (task: Self)
        ensures
            task.future == future,
    {
        Task { future }
    }

    /// Records what one poll of the task gave: a finished task is dropped and
    /// counts as solved, a pending one goes to the end of `pendings` to be
    /// polled on a later pass.
    pub fn settle(self, progress: Poll<()>, pendings: &mut Vec<Task<F>>) -> (solved: bool)
        ensures
            solved == (progress is Ready),
            final(pendings)@ == (if solved {
                old(pendings)@
            } else {
                old(pendings)@.push(self)
            }),
    {
        match progress {
            Poll::Ready(()) => true,
            Poll::Pending => {
                pendings.push(self);
                false
            },
        }
    }
}

/// The tasks that a pass keeps for later when it polled `tasks` in order and
/// their polls gave `progress` (one outcome per task): the pending ones, in
/// the order they were polled.
pub open spec fn kept_after<F>(tasks: Seq<Task<F>>, progress: Seq<Poll<()>>) -> Seq<Task<F>>
    decreases tasks.len(),
{
    if tasks.len() == 0 || progress.len() != tasks.len() {
        Seq::empty()
    } else {
        let kept = kept_after(tasks.drop_last(), progress.drop_last());
        if progress.last() is Ready {
            kept
        } else {
            kept.push(tasks.last())
        }
    }
}

/// How many of the polls in `progress` finished their task.
pub open spec fn solved_in(progress: Seq<Poll<()>>) -> nat
    decreases progress.len(),
{
    if progress.len() == 0 {
        0
    } else {
        solved_in(progress.drop_last()) + if progress.last() is Ready {
            1nat
        } else {
            0nat
        }
    }
}

/// One more `Task::settle` in a pass: if `pendings` held what the pass kept
/// so far, after settling `task` with `p` it holds what the longer pass keeps,
/// and the solved count grows exactly when the task finished.
pub proof fn lemma_settle_extends_pass<F>(
    tasks: Seq<Task<F>>,
    progress: Seq<Poll<()>>,
    task: Task<F>,
    p: Poll<()>,
)
    requires
        tasks.len() == progress.len(),
    ensures
        kept_after(tasks.push(task), progress.push(p)) == (if p is Ready {
            kept_after(tasks, progress)
        } else {
            kept_after(tasks, progress).push(task)
        }),
        solved_in(progress.push(p)) == solved_in(progress) + (if p is Ready {
            1nat
        } else {
            0nat
        }),
{
    assert(tasks.push(task).drop_last() =~= tasks);
    assert(progress.push(p).drop_last() =~= progress);
}

/// A pass loses and duplicates no task: every task polled is either counted
/// as solved or kept, once, for the next pass.
pub proof fn lemma_pass_accounts_every_task<F>(tasks: Seq<Task<F>>, progress: Seq<Poll<()>>)
    requires
        tasks.len() == progress.len(),
    ensures
        kept_after(tasks, progress).len() + solved_in(progress) == tasks.len(),
    decreases tasks.len(),
{
    if tasks.len() > 0 {
        lemma_pass_accounts_every_task(tasks.drop_last(), progress.drop_last());
    }
}

/// The queues that one worker thread takes tasks from.
#[verifier::reject_recursive_types(T)]
pub struct WorkerQueues<T> {
    local_queue: crossbeam_deque::Worker<T>,
    stealers: Arc<Vec<QueueStealer<T>>>,
}

/// What each of a sequence of steal attempts gave, in order.
pub open spec fn outcomes_of<T>(attempts: Seq<StealAttempt<T>>) -> Seq<StealOutcome<T>> {
    attempts.map_values(|a: StealAttempt<T>| a.outcome())
}

impl<T> WorkerQueues<T> {
    /// The queue that this worker owns.
    pub closed spec fn own_queue(&self) -> crossbeam_deque::Worker<T> {
        self.local_queue
    }

    /// The stealers of every worker's queue, this worker's own included.
    pub closed spec fn stealers(&self) -> Seq<QueueStealer<T>> {
        (*self.stealers)@
    }

    /// How many queues this worker can steal from.
    pub fn stealer_count(&self) -> (n: usize)
        ensures
            n == self.stealers().len(),
    {
        self.stealers.len()
    }

    /// Finds the next task to run: first moves a batch from the shared queue
    /// into the local one, then pops the local queue, and only when that gave
    /// nothing tries the stealers one after the other, in index order,
    /// stopping at the first that hands over a task. Which tasks the queues
    /// hold is up to the other workers, who push and steal concurrently, so
    /// the second half of the result records the pop of this worker's own
    /// queue and each steal attempt, in order, each made on the queue of the
    /// stealer at its index; the task found is fixed by them.
    pub fn search_tasks(&self, shared: &crossbeam_deque::Injector<T>) -> (found: (
        Option<T>,
        Ghost<(LocalPop<T>, Seq<StealAttempt<T>>)>,
    ))
        ensures
            found.1@.0.queue() == self.own_queue(),
            found.1@.1.len() <= self.stealers().len(),
            forall|j: int|
                0 <= j < found.1@.1.len() ==> (#[trigger] found.1@.1[j]).queue()
                    == self.stealers()[j].queue(),
            search_trace_valid(
                found.1@.0.task(),
                outcomes_of(found.1@.1),
                self.stealers().len(),
            ),
            found.0 == search_found(found.1@.0.task(), outcomes_of(found.1@.1)),
            found.1@.0.task() is Some ==> found.0 == found.1@.0.task() && found.1@.1.len() == 0,
            found.0 is None ==> {
                &&& found.1@.0.task() is None
                &&& found.1@.1.len() == self.stealers().len()
                &&& forall|j: int|
                    0 <= j < found.1@.1.len() ==> !((#[trigger] found.1@.1[j]).outcome() is Success)
            },
            found.1@.0.task() is None && found.0 is Some ==> {
                &&& found.1@.1.len() > 0
                &&& found.1@.1.last().outcome() == StealOutcome::Success(found.0->0)
                &&& forall|j: int|
                    0 <= j < found.1@.1.len() - 1 ==> !((#[trigger] found.1@.1[j]).outcome() is Success)
            },
    {
        let _ = refill_from(shared, &self.local_queue);
        let n = self.stealers.len();
        let pop = pop_local(&self.local_queue);
        let ghost pop_record = pop;
        let popped = pop.into_task();
        let ghost mut attempts: Seq<StealAttempt<T>> = Seq::empty();
        let mut step = after_local_pop(popped, n);
        loop
            invariant
                n == self.stealers().len(),
                pop_record.queue() == self.own_queue(),
                attempts.len() <= n,
                forall|j: int|
                    0 <= j < attempts.len() ==> (#[trigger] attempts[j]).queue()
                        == self.stealers()[j].queue(),
                search_invariant(step, pop_record.task(), outcomes_of(attempts), n as nat),
            decreases steps_left(step, n as nat),
        {
            match step {
                SearchStep::Found(task) => {
                    proof {
                        lemma_search_trace_explicit(pop_record.task(), attempts, n as nat);
                    }
                    return (Some(task), Ghost((pop_record, attempts)));
                },
                SearchStep::Exhausted => {
                    proof {
                        lemma_search_trace_explicit(pop_record.task(), attempts, n as nat);
                    }
                    return (None, Ghost((pop_record, attempts)));
                },
                SearchStep::Steal(i) => {
                    let attempt = steal_from(&self.stealers[i]);
                    proof {
                        assert(outcomes_of(attempts.push(attempt)) =~= outcomes_of(attempts).push(
                            attempt.outcome(),
                        ));
                        attempts = attempts.push(attempt);
                    }
                    let outcome = attempt.into_outcome();
                    step = after_steal(i, outcome, n);
                },
            }
        }
    }

    /// Puts the tasks that are still pending back on the local queue, in
    /// order; the result records each push: the `j`-th pushed `pendings[j]`
    /// onto this worker's own queue, and there is one push per pending task.
    pub fn requeue(&self, pendings: Vec<T>) -> (pushed: Ghost<Seq<LocalPush<T>>>)
        ensures
            pushed@.len() == pendings@.len(),
            forall|j: int|
                0 <= j < pushed@.len() ==> (#[trigger] pushed@[j]).task() == pendings@[j]
                    && pushed@[j].queue() == self.own_queue(),
    {
        let ghost all = pendings@;
        let ghost mut pushed: Seq<LocalPush<T>> = Seq::empty();
        for task in iter: pendings
            invariant
                iter.seq() == all,
                pushed.len() == iter.index(),
                forall|j: int|
                    0 <= j < pushed.len() ==> (#[trigger] pushed[j]).task() == all[j]
                        && pushed[j].queue() == self.own_queue(),
        {
            let receipt = push_local(&self.local_queue, task);
            proof {
                pushed = pushed.push(receipt);
            }
        }
        Ghost(pushed)
    }
}

/// The search-trace facts spelled out: a task from the own queue ends the
/// search before any steal; an empty search tried every stealer and none
/// handed over a task; a stolen task is what the last attempt gave, and no
/// earlier attempt gave one.
proof fn lemma_search_trace_explicit<T>(
    popped: Option<T>,
    attempts: Seq<StealAttempt<T>>,
    stealer_count: nat,
)
    requires
        search_trace_valid(popped, outcomes_of(attempts), stealer_count),
    ensures
        popped is Some ==> search_found(popped, outcomes_of(attempts)) == popped
            && attempts.len() == 0,
        search_found(popped, outcomes_of(attempts)) is None ==> {
            &&& popped is None
            &&& attempts.len() == stealer_count
            &&& forall|j: int|
                0 <= j < attempts.len() ==> !((#[trigger] attempts[j]).outcome() is Success)
        },
        popped is None && search_found(popped, outcomes_of(attempts)) is Some ==> {
            &&& attempts.len() > 0
            &&& attempts.last().outcome() == StealOutcome::Success(
                search_found(popped, outcomes_of(attempts))->0,
            )
            &&& forall|j: int|
                0 <= j < attempts.len() - 1 ==> !((#[trigger] attempts[j]).outcome() is Success)
        },
{
    let outcomes = outcomes_of(attempts);
    let n = attempts.len() as int;
    assert(outcomes.len() == n);
    assert forall|j: int| 0 <= j < n implies #[trigger] attempts[j].outcome() == outcomes[j] by {}
    if popped is None && n > 0 {
        assert(outcomes.last() == attempts.last().outcome());
        assert forall|j: int| 0 <= j < n - 1 implies !((#[trigger] attempts[j]).outcome() is Success) by {
            assert(attempts[j].outcome() == outcomes[j]);
        }
        if search_found(popped, outcomes) is None {
            assert(!(outcomes.last() is Success));
            assert forall|j: int| 0 <= j < n implies !((#[trigger] attempts[j]).outcome() is Success) by {
                assert(attempts[j].outcome() == outcomes[j]);
                if j < n - 1 {
                } else {
                    assert(j == n - 1);
                }
            }
        }
    }
}

/// Creates the queues of `workers_num` workers: each worker owns a fresh
/// FIFO queue and shares with all the others one list of the `workers_num`
/// stealers, one for each worker's queue: the stealer at index `i` steals
/// from the queue of worker `workers_num - 1 - i`.
pub fn build_workers<T>(workers_num: usize) -> (workers: Vec<WorkerQueues<T>>)
    ensures
        workers.len() == workers_num,
        forall|i: int|
            0 <= i < workers.len() ==> (#[trigger] workers[i]).stealers().len() == workers_num
                && workers[i].stealers() == workers[0].stealers(),
        forall|i: int|
            0 <= i < workers_num ==> (#[trigger] workers[0].stealers()[i]).queue()
                == workers[workers_num - 1 - i].own_queue(),
{
    let mut queues: Vec<crossbeam_deque::Worker<T>> = Vec::new();
    let mut stealers: Vec<QueueStealer<T>> = Vec::new();
    let mut i: usize = 0;
    while i < workers_num
        invariant
            i <= workers_num,
            queues.len() == i,
            stealers.len() == i,
            forall|j: int| 0 <= j < i ==> (#[trigger] stealers@[j]).queue() == queues@[j],
        decreases workers_num - i,
    {
        let queue = new_fifo_queue();
        stealers.push(stealer_of(&queue));
        queues.push(queue);
        i += 1;
    }
    let ghost all = queues@;
    let stealers = Arc::new(stealers);
    let mut workers: Vec<WorkerQueues<T>> = Vec::new();
    while queues.len() > 0
        invariant
            workers.len() + queues.len() == workers_num,
            all.len() == workers_num,
            queues@ == all.subrange(0, queues.len() as int),
            (*stealers)@.len() == workers_num,
            forall|j: int| 0 <= j < workers_num ==> (#[trigger] (*stealers)@[j]).queue() == all[j],
            forall|j: int|
                0 <= j < workers.len() ==> (#[trigger] workers[j]).stealers() == (*stealers)@
                    && workers[j].own_queue() == all[workers_num - 1 - j],
        decreases queues.len(),
    {
        if let Some(queue) = queues.pop() {
            workers.push(WorkerQueues { local_queue: queue, stealers: Arc::clone(&stealers) });
        }
    }
    workers
}

} // verus!
