//! How long a worker thread rests between two passes over its task queues.
//!
//! All durations are whole nanoseconds.
use vstd::prelude::*;
use vstd::arithmetic::power2::*;

verus! {

/// The shortest time budget of a pass: 500 µs.
pub const MIN_PASS_TIMEOUT: u64 = 500_000;

/// The longest time budget of a pass: 25 ms.
pub const MAX_PASS_TIMEOUT: u64 = 25_000_000;

/// The budget of the next pass, given the budget of the pass that just ended
/// and how many tasks it completed: any progress resets the budget to the
/// minimum, an idle pass doubles it up to the maximum.
pub open spec fn next_timeout(current: nat, solved: nat) -> nat {
    if solved >= 1 {
        MIN_PASS_TIMEOUT as nat
    } else if 2 * current <= MAX_PASS_TIMEOUT {
        2 * current
    } else {
        MAX_PASS_TIMEOUT as nat
    }
}

/// How long a worker sleeps after a pass that lasted `pass_duration` under a
/// budget of `pass_timeout`: the rest of the budget, if any is left.
pub open spec fn pause_for(pass_timeout: nat, pass_duration: nat) -> Option<nat> {
    if pass_duration < pass_timeout {
        Some((pass_timeout - pass_duration) as nat)
    } else {
        None
    }
}

/// The budget after `idle_passes` passes in a row that completed nothing,
/// starting from the minimum.
pub open spec fn idle_timeout(idle_passes: nat) -> nat
    decreases idle_passes,
{
    if idle_passes == 0 {
        MIN_PASS_TIMEOUT as nat
    } else {
        next_timeout(idle_timeout((idle_passes - 1) as nat), 0)
    }
}

pub open spec fn within_bounds(timeout: nat) -> bool {
    MIN_PASS_TIMEOUT <= timeout <= MAX_PASS_TIMEOUT
}

pub open spec fn opt_nat(o: Option<u64>) -> Option<nat> {
    match o {
        Some(v) => Some(v as nat),
        None => None,
    }
}

/// The budget that follows `current` after a pass that completed `solved` tasks.
pub fn next_pass_timeout(current: u64, solved: usize) -> (timeout: u64)
    ensures
        timeout == next_timeout(current as nat, solved as nat),
{
    if solved >= 1 {
        MIN_PASS_TIMEOUT
    } else if current <= MAX_PASS_TIMEOUT / 2 {
        current * 2
    } else {
        MAX_PASS_TIMEOUT
    }
}

/// The pause that completes a pass of `pass_duration` to its budget `pass_timeout`;
/// `None` when the pass used up its budget.
pub fn pause_after(pass_timeout: u64, pass_duration: u64) -> (pause: Option<u64>)
    ensures
        opt_nat(pause) == pause_for(pass_timeout as nat, pass_duration as nat),
{
    if pass_duration < pass_timeout {
        Some(pass_timeout - pass_duration)
    } else {
        None
    }
}

/// The pacing state of one worker thread: the time budget of its current pass.
pub struct PassPacer {
    pass_timeout: u64,
}

impl View for PassPacer {
    type V = nat;

    closed spec fn view(&self) -> nat {
        self.pass_timeout as nat
    }
}

impl PassPacer {
    #[verifier::type_invariant]
    spec fn inv(self) -> bool {
        within_bounds(self.pass_timeout as nat)
    }

    /// A pacer for a worker that has not run a pass yet: the budget starts at the minimum.
    pub fn new() -> (pacer: Self)
        ensures
            pacer@ == MIN_PASS_TIMEOUT,
    {
        PassPacer { pass_timeout: MIN_PASS_TIMEOUT }
    }

    /// The budget of the current pass.
    pub fn pass_timeout(&self) -> (timeout: u64)
        ensures
            timeout == self@,
            within_bounds(timeout as nat),
    {
        proof {
            use_type_invariant(self);
        }
        self.pass_timeout
    }

    /// Ends a pass that completed `solved` tasks and lasted `pass_duration`:
    /// moves to the next budget and returns how long the worker should sleep.
    pub fn finish_pass(&mut self, solved: usize, pass_duration: u64) -> (pause: Option<u64>)
        ensures
            final(self)@ == next_timeout(old(self)@, solved as nat),
            within_bounds(final(self)@),
            opt_nat(pause) == pause_for(final(self)@, pass_duration as nat),
    {
        proof {
            use_type_invariant(&*self);
        }
        let timeout = next_pass_timeout(self.pass_timeout, solved);
        self.pass_timeout = timeout;
        pause_after(timeout, pass_duration)
    }
}

/// A budget within bounds stays within bounds, whatever the pass did.
pub proof fn lemma_next_within_bounds(current: nat, solved: nat)
    requires
        within_bounds(current),
    ensures
        within_bounds(next_timeout(current, solved)),
{
}

/// A pass that completed at least one task resets the budget to the minimum.
pub proof fn lemma_progress_resets(current: nat, solved: nat)
    requires
        solved >= 1,
    ensures
        next_timeout(current, solved) == MIN_PASS_TIMEOUT,
{
}

/// An idle pass never shortens the budget of a pacer within bounds.
pub proof fn lemma_idle_never_shrinks(current: nat)
    requires
        within_bounds(current),
    ensures
        current <= next_timeout(current, 0),
{
}

/// After `k` idle passes in a row from the minimum, the budget is the minimum
/// doubled `k` times, capped at the maximum.
pub proof fn lemma_idle_doubling(k: nat)
    ensures
        idle_timeout(k) == if MIN_PASS_TIMEOUT * pow2(k) <= MAX_PASS_TIMEOUT {
            MIN_PASS_TIMEOUT * pow2(k)
        } else {
            MAX_PASS_TIMEOUT as int
        },
    decreases k,
{
    if k == 0 {
        lemma2_to64();
    } else {
        lemma_idle_doubling((k - 1) as nat);
        lemma_pow2_unfold(k);
        let p = pow2((k - 1) as nat);
        assert(MIN_PASS_TIMEOUT * pow2(k) == 2 * (MIN_PASS_TIMEOUT * p)) by (nonlinear_arith)
            requires
                pow2(k) == 2 * p,
        ;
    }
}

/// Six idle passes in a row from the minimum reach the maximum budget, and
/// every further idle pass keeps it there.
pub proof fn lemma_idle_reaches_max(k: nat)
    requires
        k >= 6,
    ensures
        idle_timeout(k) == MAX_PASS_TIMEOUT,
    decreases k,
{
    if k == 6 {
        reveal_with_fuel(idle_timeout, 7);
    } else {
        lemma_idle_reaches_max((k - 1) as nat);
    }
}

/// When a pass ends early, the pass and its pause together last exactly the
/// budget; when the pass used its budget up, there is no pause.
pub proof fn lemma_pause_completes_budget(pass_timeout: nat, pass_duration: nat)
    ensures
        pause_for(pass_timeout, pass_duration) matches Some(p) ==> pass_duration + p
            == pass_timeout && p > 0,
        pause_for(pass_timeout, pass_duration) is None <==> pass_duration >= pass_timeout,
{
}

} // verus!
