//! Display idle tiers (dim, then off), separate from the system-wide
//! suspend-on-idle policy. Thresholds are whole seconds.

use vstd::prelude::*;

verus! {

#[derive(Debug, Clone, Copy, PartialEq, Eq, Structural)]
pub enum DisplayTier {
    Awake,
    Dim,
    Off,
}

/// Seconds of inactivity after which the display dims, and after which it
/// goes off.
#[derive(Debug, Clone, Copy, PartialEq, Eq, Structural)]
pub struct DisplayTimeouts {
    pub dim_after: u64,
    pub off_after: u64,
}

/// The tier for `idle_for` seconds of inactivity.
pub open spec fn tier_for(t: DisplayTimeouts, idle_for: int) -> DisplayTier {
    if idle_for >= t.off_after {
        DisplayTier::Off
    } else if idle_for >= t.dim_after {
        DisplayTier::Dim
    } else {
        DisplayTier::Awake
    }
}

/// Awake < Dim < Off.
pub open spec fn tier_rank(t: DisplayTier) -> int {
    match t {
        DisplayTier::Awake => 0,
        DisplayTier::Dim => 1,
        DisplayTier::Off => 2,
    }
}

impl DisplayTimeouts {
    /// The tier for `idle_for` whole seconds of inactivity.
    pub fn classify(&self, idle_for: u64) -> (r: DisplayTier)
        ensures
            r == tier_for(*self, idle_for as int),
    {
        if idle_for >= self.off_after {
            DisplayTier::Off
        } else if idle_for >= self.dim_after {
            DisplayTier::Dim
        } else {
            DisplayTier::Awake
        }
    }
}

/// Staying idle longer never brings the display back up: the tier of a
/// longer idle period is at least the tier of a shorter one.
pub proof fn lemma_tier_monotone(t: DisplayTimeouts, a: int, b: int)
    requires
        a <= b,
    ensures
        tier_rank(tier_for(t, a)) <= tier_rank(tier_for(t, b)),
{
}

/// The tier thresholds: idle for less than both timeouts is awake; idle for
/// at least the dim timeout but less than the off timeout is dim; idle for
/// at least the off timeout (exactly the timeout too) is off.
pub proof fn lemma_tier_thresholds(t: DisplayTimeouts, idle_for: int)
    ensures
        idle_for < t.dim_after && idle_for < t.off_after ==> tier_for(t, idle_for)
            == DisplayTier::Awake,
        t.dim_after <= idle_for < t.off_after ==> tier_for(t, idle_for) == DisplayTier::Dim,
        idle_for >= t.off_after ==> tier_for(t, idle_for) == DisplayTier::Off,
{
}

} // verus!
