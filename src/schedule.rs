//! The control loop's cadence: one reconciliation pass per cycle, with the
//! next deadline set when a pass starts.
use vstd::prelude::*;

verus! {

/// Length of one control cycle, in milliseconds.
pub const CYCLE_MILLIS: u64 = 15_000;

/// Pause between two requests to the bridge, in milliseconds.
pub const REQUEST_DELAY_MILLIS: u64 = 150;

/// The deadline of a cycle that starts at `now` (milliseconds).
pub fn next_deadline(now: u64) -> (r: u64)
    ensures
        r == if now + CYCLE_MILLIS <= u64::MAX { (now + CYCLE_MILLIS) as u64 } else { u64::MAX },
{
    now.saturating_add(CYCLE_MILLIS)
}

/// How long to sleep at `now` until `deadline`: nothing once it has passed.
pub fn sleep_until(deadline: u64, now: u64) -> (r: u64)
    ensures
        r == if deadline > now { (deadline - now) as u64 } else { 0 },
{
    if deadline > now {
        deadline - now
    } else {
        0
    }
}

} // verus!
