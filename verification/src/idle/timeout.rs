//! Raw "time since last activity" tracking, kept apart from tier
//! classification (see `detector.rs`).

use std::time::{Duration, Instant};
use vstd::prelude::*;

verus! {

#[verifier::external_type_specification]
#[verifier::external_body]
pub struct ExInstant(Instant);

/// `std::time::Instant::now()`: the current instant of the monotonic clock.
/// Nothing is claimed of the value.
#[verifier::external_body]
fn monotonic_now() -> Instant {
    Instant::now()
}

/// `Instant::elapsed`: the time passed since `since`. Nothing is claimed of
/// the value, which depends on the clock.
#[verifier::external_body]
fn elapsed_since(since: &Instant) -> Duration {
    since.elapsed()
}

/// `Duration::as_secs`: the whole seconds of `d`. Nothing is claimed of the
/// value, since a `Duration` is opaque here.
#[verifier::external_body]
pub(crate) fn whole_secs(d: &Duration) -> u64 {
    d.as_secs()
}

/// `Duration::subsec_nanos`: the fractional part of `d` in nanoseconds,
/// which std documents as always less than one second.
#[verifier::external_body]
pub(crate) fn subsec_nanos(d: &Duration) -> (r: u32)
    ensures
        r < 1_000_000_000,
{
    d.subsec_nanos()
}

pub struct ActivityTimer {
    last_activity: Instant,
}

impl ActivityTimer {
    pub fn new() -> Self {
        ActivityTimer { last_activity: monotonic_now() }
    }

    /// Restarts the clock from now.
    pub fn reset(&mut self) {
        self.last_activity = monotonic_now();
    }

    /// Time since the last activity.
    pub fn elapsed(&self) -> Duration {
        elapsed_since(&self.last_activity)
    }
}

impl Default for ActivityTimer {
    fn default() -> Self {
        Self::new()
    }
}

} // verus!
