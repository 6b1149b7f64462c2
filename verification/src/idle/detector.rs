//! The stateful idle detector: the activity clock together with the tier
//! thresholds and the suspend-on-idle setting.

use super::timeout::{whole_secs, ActivityTimer};
use crate::config::DisplayConfig;
use crate::display::timeout::{tier_for, DisplayTier, DisplayTimeouts};
use vstd::prelude::*;

verus! {

#[derive(Debug, Clone)]
pub struct IdleState {
    pub idle_seconds: u64,
    pub tier: DisplayTier,
}

pub struct IdleDetector {
    timer: ActivityTimer,
    timeouts: DisplayTimeouts,
    suspend_on_idle: bool,
    suspend_after: u64,
    current_tier: DisplayTier,
}

/// The tier change a tick reports: the new tier when it differs from the
/// previous one, nothing otherwise.
pub open spec fn transition(previous: DisplayTier, now: DisplayTier) -> Option<DisplayTier> {
    if now != previous {
        Some(now)
    } else {
        None
    }
}

impl IdleDetector {
    /// The tier last reported.
    pub closed spec fn tier(&self) -> DisplayTier {
        self.current_tier
    }

    /// The dim/off thresholds in seconds.
    pub closed spec fn timeouts(&self) -> DisplayTimeouts {
        self.timeouts
    }

    /// Whether to suspend after `suspend_after()` idle seconds.
    pub closed spec fn suspend_on_idle(&self) -> bool {
        self.suspend_on_idle
    }

    pub closed spec fn suspend_after(&self) -> u64 {
        self.suspend_after
    }

    pub fn new(config: &DisplayConfig) -> (d: Self)
        ensures
            d.tier() == DisplayTier::Awake,
            d.timeouts() == (DisplayTimeouts {
                dim_after: config.dim_timeout_secs,
                off_after: config.off_timeout_secs,
            }),
            d.suspend_on_idle() == config.suspend_on_idle,
            d.suspend_after() == config.suspend_timeout_secs,
    {
        IdleDetector {
            timer: ActivityTimer::new(),
            timeouts: DisplayTimeouts {
                dim_after: config.dim_timeout_secs,
                off_after: config.off_timeout_secs,
            },
            suspend_on_idle: config.suspend_on_idle,
            suspend_after: config.suspend_timeout_secs,
            current_tier: DisplayTier::Awake,
        }
    }

    /// Restarts the activity clock. Returns `true` if this pulled the tier
    /// back from Dim/Off to Awake (worth telling subscribers and the
    /// display), `false` if it was already Awake.
    pub fn reset(&mut self) -> (r: bool)
        ensures
            r == (old(self).tier() != DisplayTier::Awake),
            final(self).tier() == DisplayTier::Awake,
            final(self).timeouts() == old(self).timeouts(),
            final(self).suspend_on_idle() == old(self).suspend_on_idle(),
            final(self).suspend_after() == old(self).suspend_after(),
    {
        self.timer.reset();
        let was_awake = self.current_tier == DisplayTier::Awake;
        self.current_tier = DisplayTier::Awake;
        !was_awake
    }

    /// Whole seconds since the last activity, as the clock tells.
    pub fn idle_seconds(&self) -> u64 {
        whole_secs(&self.timer.elapsed())
    }

    pub fn state(&self) -> (r: IdleState)
        ensures
            r.tier == self.tier(),
    {
        IdleState { idle_seconds: self.idle_seconds(), tier: self.current_tier }
    }

    pub fn set_off_timeout(&mut self, secs: u64)
        ensures
            final(self).timeouts() == (DisplayTimeouts {
                off_after: secs,
                ..old(self).timeouts()
            }),
            final(self).tier() == old(self).tier(),
            final(self).suspend_on_idle() == old(self).suspend_on_idle(),
            final(self).suspend_after() == old(self).suspend_after(),
    {
        self.timeouts.off_after = secs;
    }

    pub fn set_timeouts(&mut self, timeouts: DisplayTimeouts)
        ensures
            final(self).timeouts() == timeouts,
            final(self).tier() == old(self).tier(),
            final(self).suspend_on_idle() == old(self).suspend_on_idle(),
            final(self).suspend_after() == old(self).suspend_after(),
    {
        self.timeouts = timeouts;
    }

    /// Re-evaluates the tier for `idle_secs` seconds of inactivity. Returns
    /// the new tier only on an actual transition, so callers can tell
    /// "still off" from "just went off".
    pub fn tick_at(&mut self, idle_secs: u64) -> (r: Option<DisplayTier>)
        ensures
            final(self).tier() == tier_for(old(self).timeouts(), idle_secs as int),
            r == transition(old(self).tier(), final(self).tier()),
            final(self).timeouts() == old(self).timeouts(),
            final(self).suspend_on_idle() == old(self).suspend_on_idle(),
            final(self).suspend_after() == old(self).suspend_after(),
    {
        let new_tier = self.timeouts.classify(idle_secs);
        if new_tier != self.current_tier {
            self.current_tier = new_tier;
            Some(new_tier)
        } else {
            None
        }
    }

    /// Re-evaluates the tier against the time passed since the last
    /// activity, as `tick_at` does for whatever that time is.
    pub fn tick(&mut self) -> (r: Option<DisplayTier>)
        ensures
            exists|idle_secs: u64|
                #![trigger tier_for(old(self).timeouts(), idle_secs as int)]
                final(self).tier() == tier_for(old(self).timeouts(), idle_secs as int),
            r == transition(old(self).tier(), final(self).tier()),
            final(self).timeouts() == old(self).timeouts(),
            final(self).suspend_on_idle() == old(self).suspend_on_idle(),
            final(self).suspend_after() == old(self).suspend_after(),
    {
        let idle = whole_secs(&self.timer.elapsed());
        self.tick_at(idle)
    }

    /// Whether idle auto-suspend is due after `idle_secs` seconds of
    /// inactivity.
    pub fn should_auto_suspend_at(&self, idle_secs: u64) -> (r: bool)
        ensures
            r == auto_suspend_due(*self, idle_secs as int),
    {
        self.suspend_on_idle && idle_secs >= self.suspend_after
    }

    /// Whether idle auto-suspend is due now, as `should_auto_suspend_at`
    /// does for the time passed since the last activity.
    pub fn should_auto_suspend(&self) -> (r: bool)
        ensures
            exists|idle_secs: u64| r == auto_suspend_due(*self, idle_secs as int),
            r ==> self.suspend_on_idle(),
            self.suspend_on_idle() && self.suspend_after() == 0 ==> r,
    {
        let idle = whole_secs(&self.timer.elapsed());
        self.should_auto_suspend_at(idle)
    }
}

/// Idle auto-suspend is due for `d` after `idle_secs` seconds of inactivity:
/// suspend-on-idle is enabled and the idle time has reached its timeout.
pub open spec fn auto_suspend_due(d: IdleDetector, idle_secs: int) -> bool {
    d.suspend_on_idle() && idle_secs >= d.suspend_after()
}

/// `b` has the suspend settings of `a`.
pub open spec fn same_suspend_settings(a: IdleDetector, b: IdleDetector) -> bool {
    a.suspend_on_idle() == b.suspend_on_idle() && a.suspend_after() == b.suspend_after()
}

/// `d` has the suspend settings of `config`, as `IdleDetector::new` gives.
pub open spec fn suspend_settings_of(d: IdleDetector, config: DisplayConfig) -> bool {
    d.suspend_on_idle() == config.suspend_on_idle && d.suspend_after()
        == config.suspend_timeout_secs
}

/// Auto-suspend follows the configuration the detector was made from: after
/// any run of ticks, resets and timeout changes (each keeps the suspend
/// settings), it is due exactly when `config` enables suspend-on-idle and
/// the idle time has reached `config`'s suspend timeout, and never when
/// suspend-on-idle is disabled.
pub proof fn lemma_auto_suspend_follows_config(
    history: Seq<IdleDetector>,
    config: DisplayConfig,
    idle_secs: int,
)
    requires
        history.len() > 0,
        suspend_settings_of(history[0], config),
        forall|k: int|
            0 <= k < history.len() - 1 ==> same_suspend_settings(
                history[k],
                #[trigger] history[k + 1],
            ),
    ensures
        auto_suspend_due(history.last(), idle_secs) == (config.suspend_on_idle && idle_secs
            >= config.suspend_timeout_secs),
        !config.suspend_on_idle ==> !auto_suspend_due(history.last(), idle_secs),
    decreases history.len(),
{
    if history.len() > 1 {
        let earlier = history.drop_last();
        assert forall|k: int| 0 <= k < earlier.len() - 1 implies same_suspend_settings(
            earlier[k],
            #[trigger] earlier[k + 1],
        ) by {
            assert(same_suspend_settings(history[k], history[k + 1]));
        }
        lemma_auto_suspend_follows_config(earlier, config, idle_secs);
        let k = history.len() - 2;
        assert(same_suspend_settings(history[k], history[k + 1]));
        assert(earlier.last() == history[k]);
    }
}

/// Ticking twice at the same idle time reports at most one transition: the
/// second tick finds the tier it would move to already in place.
pub proof fn lemma_second_tick_is_quiet(t: DisplayTimeouts, idle_secs: int)
    ensures
        transition(tier_for(t, idle_secs), tier_for(t, idle_secs)) is None,
{
}

} // verus!
