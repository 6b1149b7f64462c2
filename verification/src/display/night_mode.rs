//! Night-mode (color temperature) schedule state. The color shift itself
//! happens in the compositor; the daemon owns the on/off + schedule state so
//! it is queryable and survives restarts.

use chrono::Timelike;
use vstd::prelude::*;

verus! {

/// A time of day: whole seconds since midnight, and nanoseconds within the
/// second (at least one billion only during a leap second), ordered first
/// by the seconds and then by the nanoseconds, as `chrono::NaiveTime` is.
#[derive(Debug, Clone, Copy, PartialEq, Eq, Structural)]
pub struct ClockTime {
    pub secs: u32,
    pub frac: u32,
}

pub open spec fn clock_le(a: ClockTime, b: ClockTime) -> bool {
    a.secs < b.secs || (a.secs == b.secs && a.frac <= b.frac)
}

pub open spec fn clock_lt(a: ClockTime, b: ClockTime) -> bool {
    a.secs < b.secs || (a.secs == b.secs && a.frac < b.frac)
}

fn clock_before_or_at(a: ClockTime, b: ClockTime) -> (r: bool)
    ensures
        r == clock_le(a, b),
{
    a.secs < b.secs || (a.secs == b.secs && a.frac <= b.frac)
}

fn clock_before(a: ClockTime, b: ClockTime) -> (r: bool)
    ensures
        r == clock_lt(a, b),
{
    a.secs < b.secs || (a.secs == b.secs && a.frac < b.frac)
}

/// The time of day (seconds since midnight, nanoseconds) that
/// `chrono::NaiveTime::parse_from_str(text, "%H:%M")` yields, or `None`
/// when it rejects the text.
pub uninterp spec fn hour_minute_clock(text: Seq<char>) -> Option<(u32, u32)>;

/// Calls `chrono::NaiveTime::parse_from_str(text, "%H:%M")` and gives the
/// parsed time as seconds since midnight and nanoseconds. Claimed: the
/// result is `hour_minute_clock(text)`; a parsed time has no seconds and no
/// nanoseconds (only hour and minute are parsed, and chrono fills in zero)
/// and lies within the day. Which texts chrono accepts is not stated.
#[verifier::external_body]
fn parse_hour_minute(text: &str) -> (r: Option<ClockTime>)
    ensures
        r == (match hour_minute_clock(text@) {
            Some((s, f)) => Some(ClockTime { secs: s, frac: f }),
            None => None,
        }),
        r matches Some(t) ==> t.frac == 0 && t.secs < 86400 && t.secs % 60 == 0,
{
    match chrono::NaiveTime::parse_from_str(text, "%H:%M") {
        Ok(t) => Some(ClockTime { secs: t.num_seconds_from_midnight(), frac: t.nanosecond() }),
        Err(_) => None,
    }
}

/// The time of day a `HH:MM` config value names, as `hour_minute_clock`.
pub open spec fn clock_named(text: Seq<char>) -> Option<ClockTime> {
    match hour_minute_clock(text) {
        Some((s, f)) => Some(ClockTime { secs: s, frac: f }),
        None => None,
    }
}

#[derive(Debug, Clone)]
pub struct NightModeState {
    pub enabled: bool,
    pub start: Option<ClockTime>,
    pub end: Option<ClockTime>,
}

/// Whether a schedule from `start` to `end` covers `now`: the half-open
/// range `[start, end)`, or, when the range wraps past midnight
/// (`start > end`), everything from `start` on and everything before `end`.
pub open spec fn in_schedule(start: ClockTime, end: ClockTime, now: ClockTime) -> bool {
    if clock_le(start, end) {
        clock_le(start, now) && clock_lt(now, end)
    } else {
        clock_le(start, now) || clock_lt(now, end)
    }
}

pub open spec fn active_at(s: NightModeState, now: ClockTime) -> bool {
    s.enabled && match (s.start, s.end) {
        (Some(start), Some(end)) => in_schedule(start, end, now),
        _ => false,
    }
}

impl NightModeState {
    /// The state for the config values; a start or end that is not a
    /// `HH:MM` time is left unset.
    pub fn from_config(enabled: bool, start: &str, end: &str) -> (r: Self)
        ensures
            r.enabled == enabled,
            r.start == clock_named(start@),
            r.end == clock_named(end@),
    {
        NightModeState { enabled, start: parse_hour_minute(start), end: parse_hour_minute(end) }
    }

    /// Whether night mode should be active at `now`, given its schedule.
    /// Handles ranges that wrap past midnight (e.g. 21:00 -> 07:00); with
    /// either end unset it is never active.
    pub fn is_active_at(&self, now: ClockTime) -> (r: bool)
        ensures
            r == active_at(*self, now),
    {
        if !self.enabled {
            return false;
        }
        match (self.start, self.end) {
            (Some(start), Some(end)) => {
                if clock_before_or_at(start, end) {
                    clock_before_or_at(start, now) && clock_before(now, end)
                } else {
                    clock_before_or_at(start, now) || clock_before(now, end)
                }
            },
            _ => false,
        }
    }
}

/// A schedule that wraps past midnight is active exactly outside the
/// daytime gap `[end, start)`.
pub proof fn lemma_wrapping_schedule(start: ClockTime, end: ClockTime, now: ClockTime)
    requires
        clock_lt(end, start),
    ensures
        in_schedule(start, end, now) == !(clock_le(end, now) && clock_lt(now, start)),
{
}

/// A schedule whose start and end coincide covers no time at all.
pub proof fn lemma_empty_schedule(t: ClockTime, now: ClockTime)
    ensures
        !in_schedule(t, t, now),
{
}

} // verus!
