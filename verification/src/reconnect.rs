//! What to do after a device was lost: try to find it again a limited
//! number of times, as long as the program is meant to run.

use vstd::prelude::*;

verus! {

/// How often a lost device is looked for before it is given up.
pub const MAX_RETRIES: usize = 10;

/// The seconds to wait before each attempt to find a lost device.
pub const RETRY_INTERVAL_SECS: u64 = 5;

/// The next step in finding a lost device again.
#[derive(Debug, Clone, Copy, PartialEq, Eq, Structural)]
pub enum ReconnectStep {
    /// The program is shutting down: stop without a further attempt.
    Abandon,
    /// Wait, then make the attempt with this number, counted from 1.
    Attempt(usize),
    /// All attempts failed: give the device up.
    GiveUp,
}

/// The step after `attempts_made` failed attempts.
pub open spec fn next_step(attempts_made: usize, running: bool) -> ReconnectStep {
    if !running {
        ReconnectStep::Abandon
    } else if attempts_made >= MAX_RETRIES {
        ReconnectStep::GiveUp
    } else {
        ReconnectStep::Attempt((attempts_made + 1) as usize)
    }
}

/// Decides the step after `attempts_made` failed attempts; `running` tells
/// whether the program is still meant to run.
pub fn next_reconnect_step(attempts_made: usize, running: bool) -> (step: ReconnectStep)
    ensures
        step == next_step(attempts_made, running),
        step matches ReconnectStep::Attempt(n) ==> 1 <= n <= MAX_RETRIES && n == attempts_made + 1,
{
    if !running {
        ReconnectStep::Abandon
    } else if attempts_made >= MAX_RETRIES {
        ReconnectStep::GiveUp
    } else {
        ReconnectStep::Attempt(attempts_made + 1)
    }
}

} // verus!
