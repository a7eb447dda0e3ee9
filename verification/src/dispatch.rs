//! How runnables are handed to dispatch queues, and with what delay.
use vstd::prelude::*;

verus! {

/// How a runnable is handed to a dispatch queue.
#[derive(Debug, Clone, Copy, PartialEq, Eq, Structural)]
pub enum Dispatch {
    /// Run it as soon as the queue can.
    Now,
    /// Run it after this many nanoseconds.
    After(i64),
}

/// The delay handed to the queue's clock for a duration of `nanos`
/// nanoseconds: the duration itself where the clock's signed delay can hold
/// it, and the longest delay it can hold (about 292 years) otherwise, so
/// that no duration is ever shortened to a delay in the past.
pub fn dispatch_delay(nanos: u128) -> (d: i64)
    ensures
        d == (if nanos <= i64::MAX { nanos as int } else { i64::MAX as int }),
{
    if nanos <= i64::MAX as u128 {
        nanos as i64
    } else {
        i64::MAX
    }
}

/// How a schedule of a task spawned with a delay of `delay_nanos` is
/// dispatched, by whether it is the task's first schedule.
pub open spec fn dispatch_for(first_schedule: bool, delay_nanos: i64) -> Dispatch {
    if first_schedule {
        Dispatch::After(delay_nanos)
    } else {
        Dispatch::Now
    }
}

/// How a task spawned with a delay of `delay_nanos` is scheduled: its first
/// schedule waits for the delay, every later one (after the future yields
/// and is woken) runs at once.
pub fn delayed_dispatch(first_schedule: bool, delay_nanos: i64) -> (d: Dispatch)
    ensures
        d == dispatch_for(first_schedule, delay_nanos),
        first_schedule ==> d == Dispatch::After(delay_nanos),
        !first_schedule ==> d == Dispatch::Now,
{
    if first_schedule {
        Dispatch::After(delay_nanos)
    } else {
        Dispatch::Now
    }
}

/// Decides one schedule of a task spawned with a delay: clears the shared
/// `first_schedule` flag and dispatches by what it held, so that of all the
/// schedules that share the flag only the first one waits.
pub fn next_dispatch(first_schedule: &std::sync::atomic::AtomicBool, delay_nanos: i64) -> (d: Dispatch)
    ensures
        d == Dispatch::Now || d == Dispatch::After(delay_nanos),
{
    let first = first_schedule.swap(false, std::sync::atomic::Ordering::SeqCst);
    delayed_dispatch(first, delay_nanos)
}

} // verus!
