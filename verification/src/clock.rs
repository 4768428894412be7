//! The monotonic clock that instants are read from.

use std::time::{Duration, Instant};
use vstd::prelude::*;

verus! {

/// `std::time::Instant`, a reading of the monotonic clock. Nothing is known
/// of a value of it.
#[verifier::external_type_specification]
#[verifier::external_body]
pub struct ExInstant(Instant);

/// Calls `Instant::now`. The reading depends on when it is made, so nothing
/// is claimed of it.
#[verifier::external_body]
fn instant_now() -> Instant {
    Instant::now()
}

/// Calls `Instant::elapsed`: the time since `origin`. It depends on when the
/// call is made, so nothing is claimed of it.
#[verifier::external_body]
fn elapsed_since(origin: &Instant) -> Duration {
    origin.elapsed()
}

/// Calls `Duration::as_micros`. Nothing is claimed of the number, since
/// nothing is known of the duration.
#[verifier::external_body]
fn whole_micros(span: &Duration) -> u128 {
    span.as_micros()
}

/// A clock that counts microseconds from the moment it was started.
pub struct Clock {
    origin: Instant,
}

impl Clock {
    /// Starts a clock at the present moment.
    pub fn start() -> Clock {
        Clock { origin: instant_now() }
    }

    /// The microseconds since the clock was started, or `u64::MAX` where
    /// they no longer fit.
    pub fn now(&self) -> u64 {
        let span = elapsed_since(&self.origin);
        let micros = whole_micros(&span);
        instant_of(micros)
    }
}

/// The instant that stands for a count of microseconds: the count itself,
/// or the largest instant where the count is beyond it.
pub open spec fn spec_instant_of(micros: u128) -> u64 {
    if micros > u64::MAX {
        u64::MAX
    } else {
        micros as u64
    }
}

/// Brings a count of microseconds into the range of the instants: a count
/// that does not fit becomes the largest instant.
pub fn instant_of(micros: u128) -> (instant: u64)
    ensures
        instant == spec_instant_of(micros),
        micros <= u64::MAX ==> instant == micros,
        micros > u64::MAX ==> instant == u64::MAX,
{
    if micros > u64::MAX as u128 {
        u64::MAX
    } else {
        micros as u64
    }
}

} // verus!
