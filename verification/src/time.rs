//! Timers on the runtime's monotonic clock.
//!
//! An instant is a count of nanoseconds on the runtime's monotonic clock, a
//! duration a count of nanoseconds; the clock itself is read by the caller.
use vstd::prelude::*;

use crate::Poll;

verus! {

/// A timer that becomes ready once the clock has passed its deadline.
pub struct Sleep {
    deadline: u128,
}

impl View for Sleep {
    type V = nat;

    /// The deadline of the timer.
    closed spec fn view(&self) -> nat {
        self.deadline as nat
    }
}

/// Whether a timer with `deadline` is ready when the clock reads `now`:
/// only strictly after the deadline.
pub open spec fn sleep_ready(deadline: nat, now: nat) -> bool {
    now > deadline
}

/// A timer for `duration` nanoseconds, started when the clock reads `now`.
pub fn sleep(now: u128, duration: u128) -> (timer: Sleep)
    requires
        now + duration <= u128::MAX,
    ensures
        timer@ == now + duration,
{
    Sleep { deadline: now + duration }
}

impl Sleep {
    /// The instant after which the timer is ready.
    pub fn deadline(&self) -> (deadline: u128)
        ensures
            deadline == self@,
    {
        self.deadline
    }

    /// Polls the timer when the clock reads `now`.
    pub fn poll(&self, now: u128) -> (progress: Poll<()>)
        ensures
            progress == (if sleep_ready(self@, now as nat) {
                Poll::Ready(())
            } else {
                Poll::Pending
            }),
    {
        if now > self.deadline {
            Poll::Ready(())
        } else {
            Poll::Pending
        }
    }
}

/// Once ready, a timer stays ready: the clock only moves forward.
pub proof fn lemma_ready_stays_ready(deadline: nat, now: nat, later: nat)
    requires
        sleep_ready(deadline, now),
        now <= later,
    ensures
        sleep_ready(deadline, later),
{
}

/// A timer for `duration` started at `start` is still pending at
/// `start + duration` and ready one nanosecond later.
pub proof fn lemma_sleep_lasts_its_duration(start: nat, duration: nat)
    ensures
        !sleep_ready(start + duration, start + duration),
        sleep_ready(start + duration, start + duration + 1),
        forall|now: nat| now <= start + duration ==> !#[trigger] sleep_ready(start + duration, now),
{
}

} // verus!
