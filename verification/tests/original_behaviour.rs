use mitos_power::battery::ChargingState;
use mitos_power::config::{Config, DisplayConfig, PowerButtonConfig};
use mitos_power::config::validation::validate;
use mitos_power::cpu::cores::parse_range_count;
use mitos_power::devices::keyboard::{step_down, step_up};
use mitos_power::devices::power_button::{classify, ButtonAction};
use mitos_power::display::timeout::DisplayTier;
use mitos_power::idle::IdleDetector;
use mitos_power::inhibitor::{InhibitMode, InhibitWhat, InhibitorManager};

#[test]
fn parses_kernel_strings() {
    assert_eq!(ChargingState::from("Charging"), ChargingState::Charging);
    assert_eq!(ChargingState::from("Not charging"), ChargingState::NotCharging);
    assert_eq!(ChargingState::from("something weird"), ChargingState::Unknown);
}

#[test]
fn default_config_is_valid() {
    assert!(validate(&Config::default(), None).is_ok());
}

#[test]
fn low_below_critical_is_rejected() {
    let mut config = Config::default();
    config.battery.low_threshold_percent = 3;
    config.battery.critical_threshold_percent = 5;
    assert!(validate(&config, None).is_err());
}

#[test]
fn unknown_default_profile_is_rejected() {
    let mut config = Config::default();
    config.profiles.default_profile = "does-not-exist".into();
    assert!(validate(&config, None).is_err());
}

#[test]
fn parses_simple_range() {
    assert_eq!(parse_range_count("0-7"), Some(8));
    assert_eq!(parse_range_count("0-0"), Some(1));
    assert_eq!(parse_range_count("not a range"), None);
}

#[test]
fn step_up_clamps_at_100() {
    assert_eq!(step_up(95), 100);
    assert_eq!(step_up(50), 60);
}

#[test]
fn step_down_clamps_at_0() {
    assert_eq!(step_down(5), 0);
    assert_eq!(step_down(50), 40);
}

fn button_config() -> PowerButtonConfig {
    PowerButtonConfig {
        short_press: "suspend".into(),
        long_press: "shutdown".into(),
        multi_press: "ignore".into(),
        long_press_threshold_ms: 1500,
        multi_press_window_ms: 600,
    }
}

#[test]
fn quick_tap_is_short_press() {
    assert_eq!(classify(200, 1, &button_config()), ButtonAction::Suspend);
}

#[test]
fn held_past_threshold_is_long_press() {
    assert_eq!(classify(2000, 1, &button_config()), ButtonAction::Shutdown);
}

#[test]
fn multiple_presses_take_priority_over_duration() {
    // Even a long hold counts as multi-press once recent_press_count >= 2.
    assert_eq!(classify(2000, 2, &button_config()), ButtonAction::Ignore);
}

fn display_config(dim: u64, off: u64) -> DisplayConfig {
    DisplayConfig {
        default_brightness_percent: 70,
        dim_timeout_secs: dim,
        off_timeout_secs: off,
        suspend_on_idle: false,
        suspend_timeout_secs: 1800,
        night_mode_enabled: false,
        night_mode_start: "21:00".into(),
        night_mode_end: "07:00".into(),
    }
}

#[test]
fn starts_awake_and_reset_is_a_noop() {
    let mut d = IdleDetector::new(&display_config(300, 600));
    assert_eq!(d.state().tier, DisplayTier::Awake);
    assert!(!d.reset()); // already awake -> no transition
}

#[test]
fn tick_with_zero_timeouts_immediately_reports_off() {
    // 0s timeouts means "instantly idle".
    let mut d = IdleDetector::new(&display_config(0, 0));
    assert_eq!(d.tick(), Some(DisplayTier::Off));
    // Second tick with no state change in between -> no further transition.
    assert_eq!(d.tick(), None);
}

#[test]
fn reset_after_going_idle_reports_a_transition() {
    let mut d = IdleDetector::new(&display_config(0, 0));
    d.tick();
    assert_eq!(d.state().tier, DisplayTier::Off);
    assert!(d.reset());
    assert_eq!(d.state().tier, DisplayTier::Awake);
}

#[test]
fn acquire_then_blockers_then_release() {
    let mut mgr = InhibitorManager::new();
    let client = 7u128;
    let id = mgr.acquire(client, "mitos-video".into(), "Movie is playing".into(), InhibitWhat::Suspend, InhibitMode::Block);

    let blockers = mgr.blockers(InhibitWhat::Suspend);
    assert_eq!(blockers, vec!["mitos-video: Movie is playing".to_string()]);
    // A Suspend inhibitor does not show up under Idle.
    assert!(mgr.blockers(InhibitWhat::Idle).is_empty());

    mgr.release(id).unwrap();
    assert!(mgr.blockers(InhibitWhat::Suspend).is_empty());
}

#[test]
fn disconnect_releases_that_clients_inhibitors_only() {
    let mut mgr = InhibitorManager::new();
    let a = 1u128;
    let b = 2u128;
    mgr.acquire(a, "app-a".into(), "reason-a".into(), InhibitWhat::Idle, InhibitMode::Block);
    mgr.acquire(b, "app-b".into(), "reason-b".into(), InhibitWhat::Idle, InhibitMode::Block);

    mgr.release_all_for_client(a);

    let remaining = mgr.list();
    assert_eq!(remaining.len(), 1);
    assert_eq!(remaining[0].who, "app-b");
}
