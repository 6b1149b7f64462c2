//! Combines display.toml with the active profile's display timeout into the
//! effective dim/off timeouts, applied on every profile switch.

use crate::config::DisplayConfig;
use crate::display::timeout::DisplayTimeouts;
use vstd::prelude::*;

verus! {

/// The profile's display timeout is the "go to off" threshold; dim fires at
/// the configured dim timeout, or sooner if the profile's off timeout is
/// shorter -- "off" always has a dim warning before it, whichever profile is
/// active.
pub fn effective_timeouts(display_config: &DisplayConfig, profile_display_timeout_secs: u64) -> (r:
    DisplayTimeouts)
    ensures
        r.off_after == profile_display_timeout_secs,
        r.dim_after == (if display_config.dim_timeout_secs <= profile_display_timeout_secs {
            display_config.dim_timeout_secs
        } else {
            profile_display_timeout_secs
        }),
        r.dim_after <= r.off_after,
{
    let off_after = profile_display_timeout_secs;
    let configured_dim = display_config.dim_timeout_secs;
    let dim_after = if configured_dim <= off_after {
        configured_dim
    } else {
        off_after
    };
    DisplayTimeouts { dim_after, off_after }
}

} // verus!
