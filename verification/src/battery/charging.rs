//! Charging-state parsing.

use crate::text::{text_eq, trim, trimmed};
use vstd::prelude::*;
use vstd::std_specs::convert::FromSpecImpl;

verus! {

#[derive(Debug, Clone, Copy, PartialEq, Eq, Structural)]
pub enum ChargingState {
    Charging,
    Discharging,
    NotCharging,
    Full,
    Unknown,
}

/// The state named by a kernel `status` attribute, ignoring surrounding
/// whitespace; anything unrecognised is `Unknown`.
pub open spec fn charging_state_of(raw: Seq<char>) -> ChargingState {
    let t = trimmed(raw);
    if t == "Charging"@ {
        ChargingState::Charging
    } else if t == "Discharging"@ {
        ChargingState::Discharging
    } else if t == "Not charging"@ {
        ChargingState::NotCharging
    } else if t == "Full"@ {
        ChargingState::Full
    } else {
        ChargingState::Unknown
    }
}

impl<'a> From<&'a str> for ChargingState {
    fn from(raw: &'a str) -> (r: ChargingState) {
        let t = trim(raw);
        if text_eq(t, "Charging") {
            ChargingState::Charging
        } else if text_eq(t, "Discharging") {
            ChargingState::Discharging
        } else if text_eq(t, "Not charging") {
            ChargingState::NotCharging
        } else if text_eq(t, "Full") {
            ChargingState::Full
        } else {
            ChargingState::Unknown
        }
    }
}

impl<'a> FromSpecImpl<&'a str> for ChargingState {
    open spec fn obeys_from_spec() -> bool {
        true
    }

    open spec fn from_spec(v: &'a str) -> ChargingState {
        charging_state_of(v@)
    }
}

/// How a state is shown to people.
pub open spec fn charging_state_text(s: ChargingState) -> Seq<char> {
    match s {
        ChargingState::Charging => "charging"@,
        ChargingState::Discharging => "discharging"@,
        ChargingState::NotCharging => "not charging"@,
        ChargingState::Full => "full"@,
        ChargingState::Unknown => "unknown"@,
    }
}

impl ChargingState {
    /// The state's display text.
    pub fn to_string(&self) -> (r: String)
        ensures
            r@ == charging_state_text(*self),
    {
        let s = match self {
            ChargingState::Charging => "charging",
            ChargingState::Discharging => "discharging",
            ChargingState::NotCharging => "not charging",
            ChargingState::Full => "full",
            ChargingState::Unknown => "unknown",
        };
        String::from_str(s)
    }
}

/// Each kernel status word, with any surrounding whitespace, names its own
/// state: `Charging`, `Discharging`, `Not charging` and `Full`; any other
/// text is `Unknown`.
pub proof fn lemma_status_words(raw: Seq<char>)
    ensures
        trimmed(raw) == "Charging"@ ==> charging_state_of(raw) == ChargingState::Charging,
        trimmed(raw) == "Discharging"@ ==> charging_state_of(raw) == ChargingState::Discharging,
        trimmed(raw) == "Not charging"@ ==> charging_state_of(raw) == ChargingState::NotCharging,
        trimmed(raw) == "Full"@ ==> charging_state_of(raw) == ChargingState::Full,
        trimmed(raw) != "Charging"@ && trimmed(raw) != "Discharging"@ && trimmed(raw)
            != "Not charging"@ && trimmed(raw) != "Full"@ ==> charging_state_of(raw)
            == ChargingState::Unknown,
{
    reveal_strlit("Charging");
    reveal_strlit("Discharging");
    reveal_strlit("Not charging");
    reveal_strlit("Full");
    assert("Charging"@.len() == 8 && "Discharging"@.len() == 11);
    assert("Not charging"@.len() == 12 && "Full"@.len() == 4);
}

} // verus!
