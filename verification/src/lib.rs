//! A small work-stealing async runtime: how its worker threads find tasks,
//! pace their passes, keep timers and blocking jobs, and read the outcomes of
//! non-blocking socket calls.
use vstd::prelude::*;

pub mod pacing;
pub mod time;
pub mod blocking_pool;
pub mod deque;
pub mod handle;
pub mod net;
pub mod scheduler;
mod sync;

pub use handle::blocking::BlockingJoinHandle;
pub use handle::JoinHandle;

verus! {

/// The outcome of polling something once: done with a value, or not yet.
#[derive(Debug, PartialEq, Eq, Structural)]
pub enum Poll<T> {
    Ready(T),
    Pending,
}

} // verus!
