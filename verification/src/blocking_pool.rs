//! The queue of blocking jobs that the runtime's helper threads take work from.
use vstd::prelude::*;

use std::collections::VecDeque;

verus! {

/// Jobs waiting for a helper thread, oldest first.
pub struct BlockingQueue<J> {
    jobs: VecDeque<J>,
}

impl<J> View for BlockingQueue<J> {
    type V = Seq<J>;

    /// The waiting jobs, the one to run next first.
    closed spec fn view(&self) -> Seq<J> {
        self.jobs@
    }
}

impl<J> BlockingQueue<J> {
    /// A queue with no job waiting.
    pub fn new() -> (queue: Self)
        ensures
            queue@ == Seq::<J>::empty(),
    {
        BlockingQueue { jobs: VecDeque::new() }
    }

    /// Submits a job; it runs after every job already waiting.
    pub fn push(&mut self, job: J)
        ensures
            final(self)@ == old(self)@.push(job),
    {
        self.jobs.push_back(job);
    }

    /// Takes the oldest waiting job, if there is one.
    pub fn pop(&mut self) -> (job: Option<J>)
        ensures
            match job {
                Some(j) => old(self)@.len() > 0 && j == old(self)@[0] && final(self)@
                    == old(self)@.drop_first(),
                None => old(self)@.len() == 0 && final(self)@ == old(self)@,
            },
    {
        let job = self.jobs.pop_front();
        proof {
            if job.is_some() {
                assert(old(self)@.drop_first() =~= old(self)@.subrange(1, old(self)@.len() as int));
            }
        }
        job
    }

    /// How many jobs are waiting.
    pub fn len(&self) -> (n: usize)
        ensures
            n == self@.len(),
    {
        self.jobs.len()
    }

    /// Whether no job is waiting.
    pub fn is_empty(&self) -> (empty: bool)
        ensures
            empty == (self@.len() == 0),
    {
        self.jobs.len() == 0
    }
}

/// The queue after pushing `jobs` one by one, in order, onto `queue`.
pub open spec fn push_all<J>(queue: Seq<J>, jobs: Seq<J>) -> Seq<J>
    decreases jobs.len(),
{
    if jobs.len() == 0 {
        queue
    } else {
        push_all(queue, jobs.drop_last()).push(jobs.last())
    }
}

/// The jobs that `n` pops take from `queue`, in the order they come out.
pub open spec fn pop_n<J>(queue: Seq<J>, n: nat) -> Seq<J>
    decreases n,
{
    if n == 0 || queue.len() == 0 {
        Seq::empty()
    } else {
        seq![queue[0]] + pop_n(queue.drop_first(), (n - 1) as nat)
    }
}

proof fn lemma_push_all_appends<J>(queue: Seq<J>, jobs: Seq<J>)
    ensures
        push_all(queue, jobs) == queue + jobs,
    decreases jobs.len(),
{
    if jobs.len() > 0 {
        lemma_push_all_appends(queue, jobs.drop_last());
        assert(queue + jobs =~= (queue + jobs.drop_last()).push(jobs.last()));
    } else {
        assert(queue + jobs =~= queue);
    }
}

proof fn lemma_pop_n_prefix<J>(queue: Seq<J>, n: nat)
    requires
        n <= queue.len(),
    ensures
        pop_n(queue, n) == queue.take(n as int),
    decreases n,
{
    if n > 0 {
        lemma_pop_n_prefix(queue.drop_first(), (n - 1) as nat);
        assert(seq![queue[0]] + queue.drop_first().take(n - 1) =~= queue.take(n as int));
    } else {
        assert(queue.take(0) =~= Seq::<J>::empty());
    }
}

/// First in, first out: after jobs are pushed one by one onto a queue, the
/// pops hand out the jobs that were already waiting, then the pushed ones in
/// the order they were pushed.
pub proof fn lemma_first_in_first_out<J>(queue: Seq<J>, jobs: Seq<J>)
    ensures
        pop_n(push_all(queue, jobs), queue.len() + jobs.len()) == queue + jobs,
        pop_n(push_all(Seq::empty(), jobs), jobs.len()) == jobs,
{
    lemma_push_all_appends(queue, jobs);
    lemma_pop_n_prefix(queue + jobs, queue.len() + jobs.len());
    assert((queue + jobs).take((queue.len() + jobs.len()) as int) =~= queue + jobs);
    lemma_push_all_appends(Seq::empty(), jobs);
    lemma_pop_n_prefix(Seq::<J>::empty() + jobs, jobs.len());
    assert(Seq::<J>::empty() + jobs =~= jobs);
    assert(jobs.take(jobs.len() as int) =~= jobs);
}

} // verus!
