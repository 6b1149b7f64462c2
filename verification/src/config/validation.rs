//! Sanity checks on a loaded config, run once right after it is assembled.
//! A config that fails validation refuses to start the daemon with a clear
//! error instead of running with nonsensical values.

use super::defaults::{has_default_limits, Config};
use crate::errors::PowerError;
use crate::text::{decimal, text_eq, to_decimal};
use vstd::prelude::*;

verus! {

pub open spec fn is_builtin_profile(name: Seq<char>) -> bool {
    name == "performance"@ || name == "balanced"@ || name == "powersave"@
}

pub open spec fn has_custom_profile(c: Config, name: Seq<char>) -> bool {
    exists|i: int| 0 <= i < c.profiles.profile@.len() && (#[trigger] c.profiles.profile@[i]).name@
        == name
}

pub open spec fn low_threshold_text(low: u8, critical: u8) -> Seq<char> {
    "battery.low_threshold_percent ("@ + decimal(low as nat)
        + ") must be greater than battery.critical_threshold_percent ("@ + decimal(critical as nat)
        + ")"@
}

pub open spec fn dim_timeout_text(dim: u64, off: u64) -> Seq<char> {
    "display.dim_timeout_secs ("@ + decimal(dim as nat) + ") should not exceed display.off_timeout_secs ("@
        + decimal(off as nat) + ")"@
}

pub open spec fn unknown_profile_text(name: Seq<char>) -> Seq<char> {
    "profiles.default_profile '"@ + name
        + "' is not a built-in profile and has no matching [[profile]] entry in profiles.toml"@
}

/// The message of the first rule `c` breaks, checked in this order: the low
/// battery threshold must lie above the critical one; the thermal warning
/// temperature must lie below the critical one (`thermal_violation` is that
/// rule's message when it is broken); with an off timeout set, dimming must
/// not come after it; the default brightness is a percentage; the default
/// profile is built in or defined in profiles.toml. `None` when every rule
/// holds.
pub open spec fn first_violation(c: Config, thermal_violation: Option<String>) -> Option<
    Seq<char>,
> {
    if c.battery.low_threshold_percent <= c.battery.critical_threshold_percent {
        Some(low_threshold_text(c.battery.low_threshold_percent, c.battery.critical_threshold_percent))
    } else if thermal_violation is Some {
        Some(thermal_violation->0@)
    } else if c.display.off_timeout_secs > 0 && c.display.dim_timeout_secs
        > c.display.off_timeout_secs {
        Some(dim_timeout_text(c.display.dim_timeout_secs, c.display.off_timeout_secs))
    } else if c.display.default_brightness_percent > 100 {
        Some("display.default_brightness_percent must be 0-100"@)
    } else if !is_builtin_profile(c.profiles.default_profile@) && !has_custom_profile(
        c,
        c.profiles.default_profile@,
    ) {
        Some(unknown_profile_text(c.profiles.default_profile@))
    } else {
        None
    }
}

fn has_custom_match(config: &Config) -> (r: bool)
    ensures
        r == has_custom_profile(*config, config.profiles.default_profile@),
{
    let mut i: usize = 0;
    while i < config.profiles.profile.len()
        invariant
            i <= config.profiles.profile@.len(),
            forall|k: int|
                0 <= k < i ==> (#[trigger] config.profiles.profile@[k]).name@
                    != config.profiles.default_profile@,
        decreases config.profiles.profile@.len() - i,
    {
        if text_eq(
            config.profiles.profile[i].name.as_str(),
            config.profiles.default_profile.as_str(),
        ) {
            return true;
        }
        i = i + 1;
    }
    false
}

/// Checks `config` against the rules of `first_violation`; the thermal
/// comparison, which is made on floating-point temperatures, is done by the
/// caller and handed in as `thermal_violation`.
pub fn validate(config: &Config, thermal_violation: Option<String>) -> (r: Result<(), PowerError>)
    ensures
        match first_violation(*config, thermal_violation) {
            None => r is Ok,
            Some(m) => r matches Err(PowerError::Config(e)) && e@ == m,
        },
{
    let low = config.battery.low_threshold_percent;
    let critical = config.battery.critical_threshold_percent;
    if low <= critical {
        let m = String::from_str("battery.low_threshold_percent (").concat(
            to_decimal(low as u64).as_str(),
        ).concat(") must be greater than battery.critical_threshold_percent (").concat(
            to_decimal(critical as u64).as_str(),
        ).concat(")");
        return Err(PowerError::Config(m));
    }
    if let Some(m) = thermal_violation {
        return Err(PowerError::Config(m));
    }
    let dim = config.display.dim_timeout_secs;
    let off = config.display.off_timeout_secs;
    if off > 0 && dim > off {
        let m = String::from_str("display.dim_timeout_secs (").concat(to_decimal(dim).as_str()).concat(
            ") should not exceed display.off_timeout_secs (",
        ).concat(to_decimal(off).as_str()).concat(")");
        return Err(PowerError::Config(m));
    }
    if config.display.default_brightness_percent > 100 {
        return Err(
            PowerError::Config(String::from_str("display.default_brightness_percent must be 0-100")),
        );
    }
    let name = config.profiles.default_profile.as_str();
    let is_builtin = text_eq(name, "performance") || text_eq(name, "balanced") || text_eq(
        name,
        "powersave",
    );
    if !is_builtin && !has_custom_match(config) {
        let m = String::from_str("profiles.default_profile '").concat(name).concat(
            "' is not a built-in profile and has no matching [[profile]] entry in profiles.toml",
        );
        return Err(PowerError::Config(m));
    }
    Ok(())
}

/// The built-in defaults pass validation (when the thermal thresholds are
/// in order).
pub proof fn lemma_default_config_is_valid(c: Config)
    requires
        has_default_limits(c),
    ensures
        first_violation(c, None) is None,
{
}

/// Each built-in profile, `performance`, `balanced` or `powersave`, is
/// accepted as the default profile: with every other rule kept, such a
/// config passes validation whatever profiles.toml defines.
pub proof fn lemma_builtin_default_profile_accepted(c: Config)
    requires
        c.battery.low_threshold_percent > c.battery.critical_threshold_percent,
        !(c.display.off_timeout_secs > 0 && c.display.dim_timeout_secs
            > c.display.off_timeout_secs),
        c.display.default_brightness_percent <= 100,
        c.profiles.default_profile@ == "performance"@ || c.profiles.default_profile@
            == "balanced"@ || c.profiles.default_profile@ == "powersave"@,
    ensures
        first_violation(c, None) is None,
{
}

/// A default profile that is neither built in nor defined in profiles.toml
/// is refused, naming the profile, once every earlier rule holds.
pub proof fn lemma_unknown_default_profile_refused(c: Config)
    requires
        c.battery.low_threshold_percent > c.battery.critical_threshold_percent,
        !(c.display.off_timeout_secs > 0 && c.display.dim_timeout_secs
            > c.display.off_timeout_secs),
        c.display.default_brightness_percent <= 100,
        c.profiles.default_profile@ != "performance"@,
        c.profiles.default_profile@ != "balanced"@,
        c.profiles.default_profile@ != "powersave"@,
        forall|i: int|
            0 <= i < c.profiles.profile@.len() ==> (#[trigger] c.profiles.profile@[i]).name@
                != c.profiles.default_profile@,
    ensures
        first_violation(c, None) == Some(unknown_profile_text(c.profiles.default_profile@)),
{
}

/// The rules in order: a low battery threshold not above the critical one
/// (equal too) is refused first; then a thermal violation; then a dim
/// timeout after a nonzero off timeout (an off timeout of 0 disables the
/// rule); then a default brightness over 100.
pub proof fn lemma_validation_rules(c: Config, thermal_violation: Option<String>)
    ensures
        c.battery.low_threshold_percent <= c.battery.critical_threshold_percent ==> first_violation(
            c,
            thermal_violation,
        ) == Some(
            low_threshold_text(c.battery.low_threshold_percent, c.battery.critical_threshold_percent),
        ),
        c.battery.low_threshold_percent > c.battery.critical_threshold_percent
            && thermal_violation is Some ==> first_violation(c, thermal_violation) == Some(
            thermal_violation->0@,
        ),
        c.battery.low_threshold_percent > c.battery.critical_threshold_percent
            && thermal_violation is None && c.display.off_timeout_secs > 0
            && c.display.dim_timeout_secs > c.display.off_timeout_secs ==> first_violation(
            c,
            thermal_violation,
        ) == Some(dim_timeout_text(c.display.dim_timeout_secs, c.display.off_timeout_secs)),
        c.battery.low_threshold_percent > c.battery.critical_threshold_percent
            && thermal_violation is None && (c.display.off_timeout_secs == 0
            || c.display.dim_timeout_secs <= c.display.off_timeout_secs)
            && c.display.default_brightness_percent > 100 ==> first_violation(c, thermal_violation)
            == Some("display.default_brightness_percent must be 0-100"@),
{
}

} // verus!
