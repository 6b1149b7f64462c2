//! Brightness hotkey steps (KEY_BRIGHTNESSUP / KEY_BRIGHTNESSDOWN).

use vstd::prelude::*;

verus! {

pub const STEP_PERCENT: u8 = 10;

/// One step brighter, capped at 100.
pub fn step_up(current: u8) -> (r: u8)
    ensures
        r == (if current + STEP_PERCENT <= 100 {
            current + STEP_PERCENT
        } else {
            100
        }),
{
    let raised = current.saturating_add(STEP_PERCENT);
    if raised < 100 {
        raised
    } else {
        100
    }
}

/// One step dimmer, stopping at 0.
pub fn step_down(current: u8) -> (r: u8)
    ensures
        r == (if current >= STEP_PERCENT {
            current - STEP_PERCENT
        } else {
            0
        }),
{
    current.saturating_sub(STEP_PERCENT)
}

} // verus!
