//! Decisions of the hardware watcher loop: how often to poll, what an idle
//! tick leads to, and which hotplug events call for a refresh.
//!
//! Battery and thermal share a single poll timer, ticking at the shorter of
//! their two intervals: re-reading battery sysfs a little more often than
//! configured is harmless, and it keeps the loop easy to reason about.

use crate::display::display_power::DisplayPowerState;
use crate::display::timeout::DisplayTier;
use crate::hardware::uevent::UeventMessage;
use crate::text::text_eq;
use vstd::prelude::*;

verus! {

/// The shared poll period: the shorter of the two intervals, at least one
/// second.
pub fn poll_interval_secs(battery_secs: u64, thermal_secs: u64) -> (r: u64)
    ensures
        r == (if battery_secs <= thermal_secs {
            if battery_secs >= 1 {
                battery_secs
            } else {
                1
            }
        } else {
            if thermal_secs >= 1 {
                thermal_secs
            } else {
                1
            }
        }),
        r >= 1,
{
    let shorter = if battery_secs <= thermal_secs {
        battery_secs
    } else {
        thermal_secs
    };
    if shorter >= 1 {
        shorter
    } else {
        1
    }
}

/// The display power state that goes with an idle tier.
pub open spec fn display_state_for(tier: DisplayTier) -> DisplayPowerState {
    match tier {
        DisplayTier::Awake => DisplayPowerState::On,
        DisplayTier::Dim => DisplayPowerState::Dimmed,
        DisplayTier::Off => DisplayPowerState::Off,
    }
}

/// What one idle tick is to do: announce a new tier (with the idle time),
/// move the display to a power state, and/or suspend.
#[derive(Debug, Clone, Copy, PartialEq, Eq, Structural)]
pub struct IdleTickPlan {
    pub announce: Option<DisplayTier>,
    pub display_target: Option<DisplayPowerState>,
    pub suspend: bool,
}

/// The plan for an idle tick: unless an Idle inhibitor is held, announce
/// the reported transition, move the display to its tier's power state,
/// and suspend when auto-suspend is due.
pub open spec fn tick_plan(transition: Option<DisplayTier>, idle_inhibited: bool, auto_suspend_due: bool) -> IdleTickPlan {
    let announce = if idle_inhibited {
        None
    } else {
        transition
    };
    IdleTickPlan {
        announce,
        display_target: match announce {
            Some(t) => Some(display_state_for(t)),
            None => None,
        },
        suspend: !idle_inhibited && auto_suspend_due,
    }
}

/// The plan for an idle tick, given the tier transition the idle detector
/// reported, whether an Idle inhibitor is held, and whether auto-suspend is
/// due. A held Idle inhibitor suppresses both the display change and the
/// suspend.
pub fn idle_tick(transition: Option<DisplayTier>, idle_inhibited: bool, auto_suspend_due: bool) -> (r:
    IdleTickPlan)
    ensures
        r == tick_plan(transition, idle_inhibited, auto_suspend_due),
{
    let (announce, display_target) = match transition {
        Some(tier) if !idle_inhibited => {
            let target = match tier {
                DisplayTier::Awake => DisplayPowerState::On,
                DisplayTier::Dim => DisplayPowerState::Dimmed,
                DisplayTier::Off => DisplayPowerState::Off,
            };
            (Some(tier), Some(target))
        },
        _ => (None, None),
    };
    IdleTickPlan { announce, display_target, suspend: !idle_inhibited && auto_suspend_due }
}

/// Whether a hotplug event calls for a full refresh: any `power_supply`
/// add/change/remove does (cheaper than working out which attribute
/// changed).
pub fn route_uevent(msg: &UeventMessage) -> (r: bool)
    ensures
        r == (msg.subsystem@ == "power_supply"@),
{
    text_eq(msg.subsystem.as_str(), "power_supply")
}

/// The display follows the idle tier: the screen is on exactly when awake,
/// dimmed exactly at the dim tier, and off exactly at the off tier.
pub proof fn lemma_display_follows_tier(tier: DisplayTier)
    ensures
        (display_state_for(tier) == DisplayPowerState::On) <==> tier == DisplayTier::Awake,
        (display_state_for(tier) == DisplayPowerState::Dimmed) <==> tier == DisplayTier::Dim,
        (display_state_for(tier) == DisplayPowerState::Off) <==> tier == DisplayTier::Off,
{
}

/// A held Idle inhibitor makes an idle tick do nothing at all; without one,
/// the tick announces the reported transition, moves the display to that
/// tier's state (on, dimmed or off) and suspends exactly when auto-suspend
/// is due.
pub proof fn lemma_idle_tick_plan(transition: Option<DisplayTier>, idle_inhibited: bool, auto_suspend_due: bool)
    ensures
        idle_inhibited ==> tick_plan(transition, idle_inhibited, auto_suspend_due) == (IdleTickPlan {
            announce: None,
            display_target: None,
            suspend: false,
        }),
        !idle_inhibited ==> tick_plan(transition, idle_inhibited, auto_suspend_due).announce
            == transition,
        !idle_inhibited ==> tick_plan(transition, idle_inhibited, auto_suspend_due).suspend
            == auto_suspend_due,
        !idle_inhibited && transition == Some(DisplayTier::Awake) ==> tick_plan(
            transition,
            idle_inhibited,
            auto_suspend_due,
        ).display_target == Some(DisplayPowerState::On),
        !idle_inhibited && transition == Some(DisplayTier::Dim) ==> tick_plan(
            transition,
            idle_inhibited,
            auto_suspend_due,
        ).display_target == Some(DisplayPowerState::Dimmed),
        !idle_inhibited && transition == Some(DisplayTier::Off) ==> tick_plan(
            transition,
            idle_inhibited,
            auto_suspend_due,
        ).display_target == Some(DisplayPowerState::Off),
        transition is None ==> tick_plan(transition, idle_inhibited, auto_suspend_due).display_target
            is None,
{
}

} // verus!
