//! The timing of the input pump: how long to wait for input before the
//! next tick is due. Times are in nanoseconds.

use vstd::prelude::*;

verus! {

/// The time between two ticks: 250 ms.
pub const TICK_PERIOD_NANOS: u128 = 250_000_000;

/// How long the pump may wait for input when `elapsed` has passed since the
/// last tick: the rest of the period, and nothing once the period is over.
pub open spec fn wait_for(elapsed: nat) -> nat {
    if elapsed >= TICK_PERIOD_NANOS {
        0
    } else {
        (TICK_PERIOD_NANOS - elapsed) as nat
    }
}

/// The time to wait for input, given the time since the last tick.
pub fn poll_timeout(elapsed_nanos: u128) -> (timeout: u128)
    ensures
        timeout == wait_for(elapsed_nanos as nat),
        timeout <= TICK_PERIOD_NANOS,
{
    if elapsed_nanos >= TICK_PERIOD_NANOS {
        0
    } else {
        TICK_PERIOD_NANOS - elapsed_nanos
    }
}

/// Whether a tick is due: a full period has passed since the last one.
pub fn tick_due(elapsed_nanos: u128) -> (due: bool)
    ensures
        due == (elapsed_nanos >= TICK_PERIOD_NANOS),
        due ==> wait_for(elapsed_nanos as nat) == 0,
{
    elapsed_nanos >= TICK_PERIOD_NANOS
}

} // verus!
