//! Runtime detection of what this machine's kernel and hardware support, so
//! clients can hide affordances (e.g. hibernate) that would just fail.

use crate::text::{contains, contains_text};
use vstd::prelude::*;

verus! {

#[derive(Debug, Clone)]
pub struct HardwareCapabilities {
    pub suspend: bool,
    pub hibernate: bool,
    pub hybrid_sleep: bool,
    pub backlight: bool,
    pub battery: bool,
    pub thermal_zones: bool,
    pub cpu_governor: bool,
    pub cpu_boost: bool,
    pub rtc_wakealarm: bool,
}

/// What was found on the machine: the readings of `/sys/power/state` and
/// `/sys/power/disk` (`None` when unreadable), whether the backlight,
/// power-supply and thermal class directories have entries, and whether the
/// cpu0 governor, the global boost and the rtc0 wake-alarm files exist.
#[derive(Debug, Clone)]
pub struct CapabilityProbe {
    pub power_states: Option<String>,
    pub disk_modes: Option<String>,
    pub backlight_entries: bool,
    pub power_supply_entries: bool,
    pub thermal_entries: bool,
    pub governor_control: bool,
    pub boost_control: bool,
    pub rtc_wakealarm: bool,
}

/// The text of a reading, empty when it could not be read.
pub open spec fn text_or_empty(reading: Option<String>) -> Seq<char> {
    match reading {
        Some(t) => t@,
        None => Seq::empty(),
    }
}

fn mentions(reading: &Option<String>, word: &str) -> (r: bool)
    ensures
        r == contains_text(text_or_empty(*reading), word@),
{
    match reading {
        Some(t) => contains(t.as_str(), word),
        None => {
            let empty = String::new();
            contains(empty.as_str(), word)
        },
    }
}

impl HardwareCapabilities {
    pub fn detect(probe: &CapabilityProbe) -> (caps: HardwareCapabilities)
        ensures
            caps.suspend == (contains_text(text_or_empty(probe.power_states), "mem"@)
                || contains_text(text_or_empty(probe.power_states), "freeze"@)),
            caps.hibernate == contains_text(text_or_empty(probe.power_states), "disk"@),
            caps.hybrid_sleep == contains_text(text_or_empty(probe.disk_modes), "suspend"@),
            caps.backlight == probe.backlight_entries,
            caps.battery == probe.power_supply_entries,
            caps.thermal_zones == probe.thermal_entries,
            caps.cpu_governor == probe.governor_control,
            caps.cpu_boost == probe.boost_control,
            caps.rtc_wakealarm == probe.rtc_wakealarm,
    {
        let mem = mentions(&probe.power_states, "mem");
        let freeze = mentions(&probe.power_states, "freeze");
        HardwareCapabilities {
            suspend: mem || freeze,
            hibernate: mentions(&probe.power_states, "disk"),
            hybrid_sleep: mentions(&probe.disk_modes, "suspend"),
            backlight: probe.backlight_entries,
            battery: probe.power_supply_entries,
            thermal_zones: probe.thermal_entries,
            cpu_governor: probe.governor_control,
            cpu_boost: probe.boost_control,
            rtc_wakealarm: probe.rtc_wakealarm,
        }
    }
}

} // verus!
