//! Screen on/dim/off state tracking. The daemon does not own the display
//! server, so it tracks the *intended* power state and announces it; the
//! compositor performs the actual output power change.

use vstd::prelude::*;

verus! {

#[derive(Debug, Clone, Copy, PartialEq, Eq, Structural)]
pub enum DisplayPowerState {
    On,
    Dimmed,
    Off,
}

pub struct DisplayPowerController {
    state: DisplayPowerState,
}

impl View for DisplayPowerController {
    type V = DisplayPowerState;

    closed spec fn view(&self) -> DisplayPowerState {
        self.state
    }
}

impl DisplayPowerController {
    pub fn new() -> (c: Self)
        ensures
            c@ == DisplayPowerState::On,
    {
        DisplayPowerController { state: DisplayPowerState::On }
    }

    pub fn state(&self) -> (r: DisplayPowerState)
        ensures
            r == self@,
    {
        self.state
    }

    /// Moves to `new_state`. Returns `true` if this is an actual transition
    /// worth announcing.
    pub fn set_state(&mut self, new_state: DisplayPowerState) -> (r: bool)
        ensures
            final(self)@ == new_state,
            r == (old(self)@ != new_state),
    {
        if self.state == new_state {
            return false;
        }
        self.state = new_state;
        true
    }
}

impl Default for DisplayPowerController {
    fn default() -> (c: Self)
        ensures
            c@ == DisplayPowerState::On,
    {
        Self::new()
    }
}

} // verus!
