use mitos_power::ac::detection::{discover as discover_ac, PowerSupplyEntry};
use mitos_power::ac::{AcManager, AcState};
use mitos_power::battery::device::{BatteryEntry, BatteryReadings};
use mitos_power::battery::{BatteryManager, ChargingState};
use mitos_power::config::validation::validate;
use mitos_power::config::{Config, CustomProfileToml, DisplayConfig};
use mitos_power::cpu::boost::{self, BoostControl};
use mitos_power::cpu::cores::{is_online, present_count};
use mitos_power::cpu::governor::{available, is_numbered_cpu_dir, set_all, write_outcome, CpuDir};
use mitos_power::cpu::{frequency, topology};
use mitos_power::daemon::event_loop::{idle_tick, poll_interval_secs, route_uevent};
use mitos_power::devices::usb::{self, UsbEntry};
use mitos_power::devices::wakeup::{self, WakeupEntry};
use mitos_power::display::backlight::{BacklightDevice, BacklightEntry};
use mitos_power::display::night_mode::{ClockTime, NightModeState};
use mitos_power::display::timeout::{DisplayTier, DisplayTimeouts};
use mitos_power::display::{BrightnessController, DisplayPowerController, DisplayPowerState};
use mitos_power::errors::PowerError;
use mitos_power::hardware::acpi::{acpi_sleep_states, lid_closed};
use mitos_power::hardware::listing::{matching_names, text_at_most, text_starts_with};
use mitos_power::hardware::capabilities::{CapabilityProbe, HardwareCapabilities};
use mitos_power::hardware::sysfs::{read_i64, read_u64, read_u64_opt};
use mitos_power::hardware::uevent::UeventMessage;
use mitos_power::idle::policy::effective_timeouts;
use mitos_power::inhibitor::{InhibitMode, InhibitWhat, InhibitorManager};
use mitos_power::powerctl::{
    battery_lines, brightness_line, brightness_set_line, format_hm, inhibitor_lines, power_call,
    profile_lines, profile_set_line, status_lines, thermal_lines, BatterySummary,
    InhibitorSummary, PowerCommand, ProfileEntry, StatusSummary, ThermalSummary, ZoneSummary,
};
use mitos_power::daemon::lifecycle::{signal_action, LifecycleEvent, SignalAction};
use mitos_power::inhibitor::inhibitor::UtcTimestamp;
use mitos_power::devices::power_button::{button_request, ButtonAction, PowerOperation};
use mitos_power::text::{contains, parse_i64, parse_u32, parse_u64, split_words, to_decimal, trim, IntErrorKind};

fn some(s: &str) -> Option<String> {
    Some(s.to_string())
}

// ---- text ------------------------------------------------------------------

#[test]
fn trim_removes_unicode_whitespace_on_both_ends() {
    assert_eq!(trim("  42\n"), "42");
    assert_eq!(trim("\u{a0}Full\u{3000}"), "Full");
    assert_eq!(trim(" \t\n"), "");
    assert_eq!(trim("a b"), "a b");
}

#[test]
fn integer_parsing_follows_str_parse() {
    assert_eq!(parse_u64("42"), Ok(42));
    assert_eq!(parse_u64("+7"), Ok(7));
    assert_eq!(parse_u64("18446744073709551615"), Ok(u64::MAX));
    assert_eq!(parse_u64("18446744073709551616"), Err(IntErrorKind::PosOverflow));
    assert_eq!(parse_u64(""), Err(IntErrorKind::Empty));
    assert_eq!(parse_u64("+"), Err(IntErrorKind::InvalidDigit));
    assert_eq!(parse_u64("-1"), Err(IntErrorKind::InvalidDigit));
    assert_eq!(parse_u64("12a"), Err(IntErrorKind::InvalidDigit));
    assert_eq!(parse_u32("4294967296"), Err(IntErrorKind::PosOverflow));
    assert_eq!(parse_i64("-9223372036854775808"), Ok(i64::MIN));
    assert_eq!(parse_i64("-9223372036854775809"), Err(IntErrorKind::NegOverflow));
    assert_eq!(parse_i64("-"), Err(IntErrorKind::InvalidDigit));
    assert_eq!(parse_i64("-250"), Ok(-250));
    for s in ["0", "+1", "999", "x", "", "-3", "+"] {
        assert_eq!(parse_u64(s).ok(), s.parse::<u64>().ok(), "{s}");
        assert_eq!(parse_i64(s).ok(), s.parse::<i64>().ok(), "{s}");
    }
}

#[test]
fn decimal_formatting_reads_back() {
    for n in [0u64, 7, 10, 255, 1_000_000, u64::MAX] {
        let text = to_decimal(n);
        assert_eq!(text, n.to_string());
        assert_eq!(parse_u64(&text), Ok(n));
    }
}

#[test]
fn words_and_search() {
    assert_eq!(split_words(" freeze  mem\tdisk\n"), vec!["freeze", "mem", "disk"]);
    assert!(split_words("   ").is_empty());
    assert!(contains("freeze mem", "mem"));
    assert!(!contains("freeze", "mem"));
    assert!(contains("abc", ""));
}

// ---- sysfs -----------------------------------------------------------------

#[test]
fn read_u64_reports_the_path_and_the_reason() {
    assert_eq!(read_u64("/x/brightness", Ok("42".into())).unwrap(), 42);
    match read_u64("/x/brightness", Ok("4x".into())) {
        Err(PowerError::Hardware(m)) => assert_eq!(m, "parsing /x/brightness as u64: invalid digit found in string"),
        other => panic!("unexpected {other:?}"),
    }
    match read_i64("/x/temp", Ok("".into())) {
        Err(PowerError::Hardware(m)) => assert_eq!(m, "parsing /x/temp as i64: cannot parse integer from empty string"),
        other => panic!("unexpected {other:?}"),
    }
    match read_u64("/x/brightness", Err(PowerError::Hardware("reading failed".into()))) {
        Err(PowerError::Hardware(m)) => assert_eq!(m, "reading failed"),
        other => panic!("unexpected {other:?}"),
    }
    assert_eq!(read_u64_opt(&some("17")), Some(17));
    assert_eq!(read_u64_opt(&some("n/a")), None);
    assert_eq!(read_u64_opt(&None), None);
}

// ---- AC ----------------------------------------------------------------------

fn supply(name: &str, kind: Option<&str>, online: Option<&str>) -> PowerSupplyEntry {
    PowerSupplyEntry {
        name: name.into(),
        path: format!("/sys/class/power_supply/{name}"),
        kind: kind.map(String::from),
        online: online.map(String::from),
    }
}

#[test]
fn only_mains_supplies_are_adapters() {
    let entries = vec![
        supply("AC", Some("Mains"), Some("1")),
        supply("BAT0", Some("Battery"), None),
        supply("ucsi", Some("USB"), Some("1")),
        supply("ADP1", Some("Mains"), Some("0")),
        supply("X", None, Some("1")),
    ];
    let adapters = discover_ac(&entries).unwrap();
    assert_eq!(adapters.len(), 2);
    assert_eq!(adapters[0].id, "AC");
    assert!(adapters[0].online);
    assert_eq!(adapters[1].id, "ADP1");
    assert!(!adapters[1].online);
}

#[test]
fn ac_refresh_reports_a_change_only_when_the_state_flips() {
    let entries = vec![supply("AC", Some("Mains"), Some("0")), supply("ADP1", Some("Mains"), None)];
    let mut m = AcManager::new(&entries).unwrap();
    assert_eq!(m.state(), AcState::Offline);
    assert!(m.refresh(&vec![some("1"), None]).unwrap());
    assert_eq!(m.state(), AcState::Online);
    assert!(!m.refresh(&vec![some("1"), some("1")]).unwrap());
    assert!(!m.refresh(&vec![some("0"), some("2")]).unwrap());
    assert!(m.refresh(&vec![some("0"), some("garbage")]).unwrap());
    assert!(!m.is_online());
}

// ---- battery -----------------------------------------------------------------

fn no_readings() -> BatteryReadings {
    BatteryReadings {
        present: None,
        status: None,
        capacity: None,
        energy_now: None,
        energy_full: None,
        energy_full_design: None,
        charge_now: None,
        charge_full: None,
        charge_full_design: None,
        power_now: None,
        voltage_now: None,
        current_now: None,
        temp: None,
        cycle_count: None,
        technology: None,
        manufacturer: None,
        model_name: None,
    }
}

#[test]
fn battery_attributes_are_interpreted() {
    let mut r = no_readings();
    r.present = some("0");
    r.status = some("Discharging");
    r.capacity = some("150");
    r.energy_now = some("25000000");
    r.temp = some("-15");
    r.technology = some("Li-ion");
    let m = BatteryManager::new(&vec![BatteryEntry { name: "BAT0".into(), path: "/p/BAT0".into(), readings: r }]).unwrap();
    let d = &m.devices()[0];
    assert_eq!(d.id, "BAT0");
    assert!(!d.present);
    assert_eq!(d.status_raw, "Discharging");
    assert_eq!(d.capacity_percent, Some(100));
    assert_eq!(d.energy_now_uwh, Some(25_000_000));
    assert_eq!(d.temp_decidegrees, Some(-15));
    assert_eq!(d.technology.as_deref(), Some("Li-ion"));
    assert_eq!(d.cycle_count, None);

    let m2 = BatteryManager::new(&vec![BatteryEntry { name: "BAT1".into(), path: "/p/BAT1".into(), readings: no_readings() }]).unwrap();
    assert!(m2.devices()[0].present);
    assert_eq!(m2.devices()[0].status_raw, "Unknown");
}

#[test]
fn battery_refresh_reports_what_changed() {
    let mut r = no_readings();
    r.status = some("Charging");
    r.capacity = some("40");
    let mut m = BatteryManager::new(&vec![BatteryEntry { name: "BAT0".into(), path: "/p".into(), readings: r.clone() }]).unwrap();
    let same = m.refresh(&vec![r.clone()]).unwrap();
    assert!(!same.any());
    let mut r2 = r.clone();
    r2.capacity = some("41");
    let res = m.refresh(&vec![r2.clone()]).unwrap();
    assert!(res.percentage_changed && !res.status_changed && res.any());
    let mut r3 = r2.clone();
    r3.status = some("Full");
    let res = m.refresh(&vec![r3]).unwrap();
    assert!(!res.percentage_changed && res.status_changed);
}

#[test]
fn charging_state_trims_and_displays() {
    assert_eq!(ChargingState::from(" Full\n"), ChargingState::Full);
    assert_eq!(ChargingState::from("Discharging"), ChargingState::Discharging);
    assert_eq!(ChargingState::from("charging"), ChargingState::Unknown);
    assert_eq!(ChargingState::NotCharging.to_string(), "not charging");
}

// ---- config ------------------------------------------------------------------

#[test]
fn validation_messages_name_the_rule() {
    let mut c = Config::default();
    c.battery.low_threshold_percent = 5;
    match validate(&c, None) {
        Err(PowerError::Config(m)) => assert_eq!(
            m,
            "battery.low_threshold_percent (5) must be greater than battery.critical_threshold_percent (5)"
        ),
        other => panic!("unexpected {other:?}"),
    }
    let c = Config::default();
    match validate(&c, Some("thermal wrong".into())) {
        Err(PowerError::Config(m)) => assert_eq!(m, "thermal wrong"),
        other => panic!("unexpected {other:?}"),
    }
    let mut c = Config::default();
    c.display.dim_timeout_secs = 700;
    match validate(&c, None) {
        Err(PowerError::Config(m)) => {
            assert_eq!(m, "display.dim_timeout_secs (700) should not exceed display.off_timeout_secs (600)")
        }
        other => panic!("unexpected {other:?}"),
    }
    c.display.off_timeout_secs = 0;
    assert!(validate(&c, None).is_ok());
    c.display.default_brightness_percent = 101;
    match validate(&c, None) {
        Err(PowerError::Config(m)) => assert_eq!(m, "display.default_brightness_percent must be 0-100"),
        other => panic!("unexpected {other:?}"),
    }
    let mut c = Config::default();
    c.profiles.default_profile = "quiet".into();
    match validate(&c, None) {
        Err(PowerError::Config(m)) => assert_eq!(
            m,
            "profiles.default_profile 'quiet' is not a built-in profile and has no matching [[profile]] entry in profiles.toml"
        ),
        other => panic!("unexpected {other:?}"),
    }
    c.profiles.profile.push(CustomProfileToml { name: "quiet".into() });
    assert!(validate(&c, None).is_ok());
    c.profiles.default_profile = "powersave".into();
    assert!(validate(&c, None).is_ok());
}

// ---- cpu ---------------------------------------------------------------------

#[test]
fn cpu_ranges_and_online_state() {
    assert_eq!(present_count(&some("0-7")), 8);
    assert_eq!(present_count(&some(" 2-3\n")), 2);
    assert_eq!(present_count(&some("5-2")), 1);
    assert_eq!(present_count(&some("0-4294967295")), 1);
    assert_eq!(present_count(&None), 1);
    assert!(is_online(0, &some("0")));
    assert!(!is_online(3, &some("0")));
    assert!(is_online(3, &None));
}

#[test]
fn cpu_directory_names() {
    assert!(is_numbered_cpu_dir("cpu0"));
    assert!(is_numbered_cpu_dir("cpu17"));
    assert!(!is_numbered_cpu_dir("cpu"));
    assert!(!is_numbered_cpu_dir("cpufreq"));
    assert!(!is_numbered_cpu_dir("cpuidle"));
    assert!(!is_numbered_cpu_dir("node0"));
}

#[test]
fn governor_writes_go_to_numbered_cpus_with_the_file() {
    let cpus = vec![
        CpuDir { name: "cpu0".into(), governor_path: "/c0".into(), governor_present: true },
        CpuDir { name: "cpufreq".into(), governor_path: "/cf".into(), governor_present: true },
        CpuDir { name: "cpu1".into(), governor_path: "/c1".into(), governor_present: false },
        CpuDir { name: "cpu2".into(), governor_path: "/c2".into(), governor_present: true },
    ];
    let w = set_all("powersave", &cpus);
    assert_eq!(w.len(), 2);
    assert_eq!((w[0].path.as_str(), w[0].value.as_str()), ("/c0", "powersave"));
    assert_eq!(w[1].path, "/c2");

    assert!(write_outcome(vec![Err(PowerError::Hardware("a".into())), Ok(())]).is_ok());
    match write_outcome(vec![Err(PowerError::Hardware("a".into())), Err(PowerError::Hardware("b".into()))]) {
        Err(PowerError::Hardware(m)) => assert_eq!(m, "b"),
        other => panic!("unexpected {other:?}"),
    }
    match write_outcome(vec![]) {
        Err(PowerError::Unsupported(m)) => assert_eq!(m, "no cpufreq governor control found"),
        other => panic!("unexpected {other:?}"),
    }
    assert_eq!(available(&some("performance  powersave")), vec!["performance", "powersave"]);
    assert!(available(&None).is_empty());
}

#[test]
fn boost_prefers_the_intel_switch() {
    let policies = vec![
        BoostControl { path: "/p0/boost".into(), present: true },
        BoostControl { path: "/p1/boost".into(), present: false },
    ];
    let w = boost::set(true, true, &policies).unwrap();
    assert_eq!(w.len(), 1);
    assert_eq!(w[0].path, "/sys/devices/system/cpu/cpufreq/boost");
    assert_eq!(w[0].value, "1");
    let w = boost::set(false, false, &policies).unwrap();
    assert_eq!(w.len(), 1);
    assert_eq!((w[0].path.as_str(), w[0].value.as_str()), ("/p0/boost", "0"));
    match boost::set(true, false, &vec![]) {
        Err(PowerError::Unsupported(m)) => {
            assert_eq!(m, "no boost control found (checked Intel global + AMD per-policy paths)")
        }
        other => panic!("unexpected {other:?}"),
    }
    assert_eq!(boost::is_enabled(&some("1")), Some(true));
    assert_eq!(boost::is_enabled(&some("0")), Some(false));
    assert_eq!(boost::is_enabled(&None), None);
}

#[test]
fn frequency_and_topology_readings() {
    let f = frequency::read(&some("1200000"), &None, &some("x"));
    assert_eq!((f.current_khz, f.min_khz, f.max_khz), (Some(1_200_000), None, None));
    let t = topology::read(&some("3"), &some("4294967297"));
    assert_eq!((t.core_id, t.physical_package_id), (Some(3), Some(1)));
}

// ---- devices -----------------------------------------------------------------

#[test]
fn usb_and_wakeup_sources() {
    let entries = vec![
        UsbEntry { name: "1-1".into(), path: "/u/1-1".into(), wakeup_present: true, wakeup: some("enabled") },
        UsbEntry { name: "1-1:1.0".into(), path: "/u/1-1:1.0".into(), wakeup_present: false, wakeup: None },
        UsbEntry { name: "2-1".into(), path: "/u/2-1".into(), wakeup_present: true, wakeup: some("disabled") },
    ];
    let devs = usb::discover(&entries).unwrap();
    assert_eq!(devs.len(), 2);
    assert_eq!(devs[0].wakeup_enabled, Some(true));
    assert_eq!(devs[1].wakeup_enabled, Some(false));
    let w = usb::set_wakeup(&devs[1], true);
    assert_eq!((w.path.as_str(), w.value.as_str()), ("/u/2-1/power/wakeup", "enabled"));

    let sources = wakeup::discover(&vec![
        WakeupEntry { file_name: "wakeup0".into(), name: some("PNP0C0D:00"), active_count: some("3"), event_count: None },
        WakeupEntry { file_name: "wakeup1".into(), name: None, active_count: None, event_count: some("9") },
    ]);
    assert_eq!(sources[0].name, "PNP0C0D:00");
    assert_eq!(sources[0].active_count, Some(3));
    assert_eq!(sources[1].name, "wakeup1");
    assert_eq!(sources[1].event_count, Some(9));
    assert_eq!(wakeup::wakeup_count(&some("12")), Some(12));
}

// ---- display -----------------------------------------------------------------

#[test]
fn backlight_discovery_and_raw_brightness() {
    let devs = BacklightDevice::discover(vec![
        BacklightEntry { name: "intel_backlight".into(), path: "/b/intel".into(), max_brightness: Ok("19200".into()) },
    ])
    .unwrap();
    assert_eq!(devs[0].max_brightness, 19200);
    let d = &devs[0];
    let w = d.set_raw(9600).unwrap();
    assert_eq!((w.path.as_str(), w.value.as_str()), ("/b/intel/brightness", "9600"));
    assert_eq!(d.current_raw(Ok(w.value.clone())).unwrap(), 9600);
    match d.set_raw(20000) {
        Err(PowerError::InvalidParams(m)) => assert_eq!(m, "brightness 20000 exceeds max_brightness 19200"),
        other => panic!("unexpected {other:?}"),
    }
    match BacklightDevice::discover(vec![
        BacklightEntry { name: "a".into(), path: "/b/a".into(), max_brightness: Ok("10".into()) },
        BacklightEntry { name: "b".into(), path: "/b/b".into(), max_brightness: Ok("ten".into()) },
    ]) {
        Err(PowerError::Hardware(m)) => {
            assert_eq!(m, "parsing /b/b/max_brightness as u64: invalid digit found in string")
        }
        other => panic!("unexpected {other:?}"),
    }
    let c = BrightnessController::new(vec![]).unwrap();
    assert!(!c.is_supported());
    let c = BrightnessController::new(vec![
        BacklightEntry { name: "a".into(), path: "/b/a".into(), max_brightness: Ok("10".into()) },
        BacklightEntry { name: "b".into(), path: "/b/b".into(), max_brightness: Ok("20".into()) },
    ])
    .unwrap();
    assert_eq!(c.device().unwrap().id, "a");
}

#[test]
fn display_power_transitions() {
    let mut c = DisplayPowerController::new();
    assert_eq!(c.state(), DisplayPowerState::On);
    assert!(!c.set_state(DisplayPowerState::On));
    assert!(c.set_state(DisplayPowerState::Dimmed));
    assert!(!c.set_state(DisplayPowerState::Dimmed));
    assert_eq!(c.state(), DisplayPowerState::Dimmed);
}

#[test]
fn display_tiers_follow_the_timeouts() {
    let t = DisplayTimeouts { dim_after: 300, off_after: 600 };
    assert_eq!(t.classify(0), DisplayTier::Awake);
    assert_eq!(t.classify(299), DisplayTier::Awake);
    assert_eq!(t.classify(300), DisplayTier::Dim);
    assert_eq!(t.classify(600), DisplayTier::Off);
}

#[test]
fn night_mode_schedule_wraps_past_midnight() {
    let s = NightModeState::from_config(true, "21:00", "07:00");
    assert_eq!(s.start, Some(ClockTime { secs: 21 * 3600, frac: 0 }));
    assert_eq!(s.end, Some(ClockTime { secs: 7 * 3600, frac: 0 }));
    let at = |h: u32, m: u32| ClockTime { secs: h * 3600 + m * 60, frac: 0 };
    assert!(s.is_active_at(at(23, 30)));
    assert!(s.is_active_at(at(3, 0)));
    assert!(!s.is_active_at(at(7, 0)));
    assert!(!s.is_active_at(at(12, 0)));
    assert!(s.is_active_at(at(21, 0)));

    let day = NightModeState::from_config(true, "08:00", "17:00");
    assert!(day.is_active_at(at(8, 0)));
    assert!(!day.is_active_at(at(17, 0)));
    assert!(!NightModeState::from_config(false, "21:00", "07:00").is_active_at(at(23, 0)));
    let bad = NightModeState::from_config(true, "late", "07:00");
    assert_eq!(bad.start, None);
    assert!(!bad.is_active_at(at(23, 0)));
}

// ---- idle ----------------------------------------------------------------------

#[test]
fn effective_timeouts_keep_dim_before_off() {
    let mut d = Config::default().display;
    d.dim_timeout_secs = 300;
    let t = effective_timeouts(&d, 900);
    assert_eq!((t.dim_after, t.off_after), (300, 900));
    let t = effective_timeouts(&d, 120);
    assert_eq!((t.dim_after, t.off_after), (120, 120));
}

#[test]
fn idle_detector_tiers_and_suspend() {
    let mut d = Config::default().display;
    d.dim_timeout_secs = 10;
    d.off_timeout_secs = 20;
    d.suspend_on_idle = true;
    d.suspend_timeout_secs = 30;
    let mut det = mitos_power::idle::IdleDetector::new(&d);
    assert_eq!(det.tick_at(5), None);
    assert_eq!(det.tick_at(10), Some(DisplayTier::Dim));
    assert_eq!(det.tick_at(15), None);
    assert_eq!(det.tick_at(25), Some(DisplayTier::Off));
    assert!(!det.should_auto_suspend_at(29));
    assert!(det.should_auto_suspend_at(30));
    det.set_off_timeout(100);
    assert_eq!(det.tick_at(25), Some(DisplayTier::Dim));
}

// ---- daemon decisions -------------------------------------------------------

#[test]
fn event_loop_decisions() {
    assert_eq!(poll_interval_secs(30, 5), 5);
    assert_eq!(poll_interval_secs(0, 5), 1);
    let plan = idle_tick(Some(DisplayTier::Off), false, true);
    assert_eq!(plan.announce, Some(DisplayTier::Off));
    assert_eq!(plan.display_target, Some(DisplayPowerState::Off));
    assert!(plan.suspend);
    let plan = idle_tick(Some(DisplayTier::Dim), true, true);
    assert_eq!(plan.announce, None);
    assert_eq!(plan.display_target, None);
    assert!(!plan.suspend);
    let msg = |s: &str| UeventMessage { subsystem: s.into(), action: "change".into(), sysname: "AC".into(), devpath: "/x".into() };
    assert!(route_uevent(&msg("power_supply")));
    assert!(!route_uevent(&msg("input")));
}

// ---- hardware ------------------------------------------------------------------

#[test]
fn capabilities_from_the_probe() {
    let probe = CapabilityProbe {
        power_states: some("freeze mem disk"),
        disk_modes: some("[platform] shutdown reboot suspend"),
        backlight_entries: true,
        power_supply_entries: false,
        thermal_entries: true,
        governor_control: true,
        boost_control: false,
        rtc_wakealarm: true,
    };
    let c = HardwareCapabilities::detect(&probe);
    assert!(c.suspend && c.hibernate && c.hybrid_sleep && c.backlight && !c.battery);
    let c = HardwareCapabilities::detect(&CapabilityProbe { power_states: None, disk_modes: None, ..probe });
    assert!(!c.suspend && !c.hibernate && !c.hybrid_sleep);
    assert_eq!(acpi_sleep_states(Ok("freeze mem".into())).unwrap(), vec!["freeze", "mem"]);
}

// ---- inhibitors ------------------------------------------------------------------

#[test]
fn inhibitor_coverage_and_unknown_release() {
    assert!(InhibitWhat::All.covers(InhibitWhat::Idle));
    assert!(InhibitWhat::Idle.covers(InhibitWhat::Idle));
    assert!(!InhibitWhat::Suspend.covers(InhibitWhat::All));
    let mut mgr = InhibitorManager::new();
    let id = mgr.acquire(1, "backup".into(), "Backup running".into(), InhibitWhat::All, InhibitMode::Delay);
    assert_eq!(mgr.blockers(InhibitWhat::Shutdown), vec!["backup: Backup running".to_string()]);
    assert_eq!(mgr.list()[0].id, id);
    match mgr.release(0x2a) {
        Err(PowerError::NotFound(m)) => assert_eq!(m, "inhibitor 00000000-0000-0000-0000-00000000002a"),
        other => panic!("unexpected {other:?}"),
    }
    assert_eq!(mgr.list().len(), 1);
    mgr.release(id).unwrap();
    assert!(mgr.list().is_empty());
    let a = mgr.acquire(1, "a".into(), "x".into(), InhibitWhat::Idle, InhibitMode::Block);
    let b = mgr.acquire(1, "b".into(), "y".into(), InhibitWhat::Idle, InhibitMode::Block);
    assert_ne!(a, b);
}

// ---- client formatting -----------------------------------------------------------

#[test]
fn hours_and_minutes() {
    assert_eq!(format_hm(0), "0h 0m");
    assert_eq!(format_hm(3599), "0h 59m");
    assert_eq!(format_hm(3600 * 5 + 60 * 7 + 59), "5h 7m");
}

#[test]
fn legacy_lid_state_text() {
    assert!(lid_closed("state:      closed"));
    assert!(lid_closed("state: CLOSED"));
    assert!(!lid_closed("state:      open"));
}

// ---- timestamps ------------------------------------------------------------

#[test]
fn timestamps_after_the_epoch_keep_seconds_and_nanos() {
    assert_eq!(UtcTimestamp::from_epoch_offset(false, 1_700_000_000, 5), UtcTimestamp { secs: 1_700_000_000, nanos: 5 });
    assert_eq!(UtcTimestamp::from_epoch_offset(false, u64::MAX, 1), UtcTimestamp { secs: i64::MAX, nanos: 999_999_999 });
}

#[test]
fn timestamps_before_the_epoch_count_down_from_it() {
    assert_eq!(UtcTimestamp::from_epoch_offset(true, 10, 0), UtcTimestamp { secs: -10, nanos: 0 });
    assert_eq!(UtcTimestamp::from_epoch_offset(true, 10, 250_000_000), UtcTimestamp { secs: -11, nanos: 750_000_000 });
    assert_eq!(UtcTimestamp::from_epoch_offset(true, 1 << 63, 0), UtcTimestamp { secs: i64::MIN, nanos: 0 });
    assert_eq!(UtcTimestamp::from_epoch_offset(true, 1 << 63, 1), UtcTimestamp { secs: i64::MIN, nanos: 0 });
}

#[test]
fn acquired_inhibitors_carry_a_valid_timestamp() {
    let mut m = InhibitorManager::new();
    let id = m.acquire(7, "app".into(), "video".into(), InhibitWhat::Idle, InhibitMode::Block);
    let infos = m.list();
    assert_eq!(infos.len(), 1);
    assert_eq!(infos[0].id, id);
    assert!(infos[0].created_at.nanos < 1_000_000_000);
}

// ---- power button requests ---------------------------------------------------

#[test]
fn button_requests_name_the_operation_and_never_force() {
    assert!(button_request(ButtonAction::Ignore).is_none());
    assert!(button_request(ButtonAction::Lock).is_none());
    for (a, op) in [
        (ButtonAction::Suspend, PowerOperation::Suspend),
        (ButtonAction::Hibernate, PowerOperation::Hibernate),
        (ButtonAction::Shutdown, PowerOperation::Shutdown),
        (ButtonAction::Reboot, PowerOperation::Reboot),
    ] {
        let r = button_request(a).unwrap();
        assert_eq!(r.operation, op);
        assert_eq!(r.reason, "power-button");
        assert!(!r.force);
    }
}

// ---- battery report ------------------------------------------------------------

#[test]
fn battery_report_without_data_or_batteries() {
    assert_eq!(battery_lines(None), vec!["No battery data available".to_string()]);
    assert_eq!(battery_lines(Some(&vec![])), vec!["No battery present (desktop or VM?)".to_string()]);
}

#[test]
fn battery_report_lists_what_each_battery_reports() {
    let full = BatterySummary {
        id: some("BAT0"),
        percent: some("87"),
        status: some("discharging"),
        health: some("good"),
        time_to_empty_secs: Some(7380),
        time_to_full_secs: None,
        cycle_count: Some(112),
    };
    let bare = BatterySummary {
        id: None,
        percent: None,
        status: None,
        health: None,
        time_to_empty_secs: None,
        time_to_full_secs: Some(59),
        cycle_count: None,
    };
    let lines = battery_lines(Some(&vec![full, bare]));
    assert_eq!(
        lines,
        vec![
            "BAT0",
            "  Charge   : 87%",
            "  Status   : discharging",
            "  Health   : good",
            "  Empty in : 2h 3m",
            "  Cycles   : 112",
            "?",
            "  Status   : unknown",
            "  Health   : unknown",
            "  Full in  : 0h 0m",
        ]
    );
}

// ---- brightness discovery errors ---------------------------------------------

#[test]
fn brightness_controller_fails_on_a_later_unreadable_backlight() {
    let r = BrightnessController::new(vec![
        BacklightEntry { name: "a".into(), path: "/b/a".into(), max_brightness: Ok("10".into()) },
        BacklightEntry { name: "b".into(), path: "/b/b".into(), max_brightness: Err(PowerError::Hardware("gone".into())) },
    ]);
    assert!(matches!(r, Err(PowerError::Hardware(m)) if m == "gone"));
}

// ---- defaults ----------------------------------------------------------------

#[test]
fn whole_config_default_matches_each_section() {
    let c = Config::default();
    assert_eq!(c.general.socket_group, "power");
    assert_eq!(c.general.log_level, "info");
    assert_eq!(c.general.state_dir, "/var/lib/mitos/power");
    assert!(!c.keyboard.brightness_hotkeys);
    assert_eq!(c.battery.low_action, "notify");
    assert_eq!(c.battery.critical_action, "hibernate");
    assert!(c.sleep.lock_before_suspend);
    assert_eq!(c.sleep.suspend_then_hibernate_delay_mins, 120);
    assert_eq!(c.sleep.lid.close_action_ac, "lock");
    assert_eq!(c.sleep.lid.close_action_battery, "suspend");
    assert_eq!(c.sleep.lid.open_action, "wake");
    assert!(c.sleep.lid.external_monitor_ignore_lid);
    assert!(!c.display.suspend_on_idle);
    assert!(!c.display.night_mode_enabled);
    assert_eq!(c.display.night_mode_start, "21:00");
    assert_eq!(c.display.night_mode_end, "07:00");
}

// ---- auto-suspend --------------------------------------------------------------

#[test]
fn auto_suspend_follows_the_config_through_ticks_and_timeout_changes() {
    let mut d = DisplayConfig::default();
    d.suspend_on_idle = true;
    d.suspend_timeout_secs = 900;
    let mut det = mitos_power::idle::IdleDetector::new(&d);
    det.tick_at(1000);
    det.set_timeouts(DisplayTimeouts { dim_after: 10, off_after: 20 });
    det.set_off_timeout(30);
    det.reset();
    assert!(!det.should_auto_suspend_at(899));
    assert!(det.should_auto_suspend_at(900));
    let off = mitos_power::idle::IdleDetector::new(&DisplayConfig::default());
    assert!(!off.should_auto_suspend_at(u64::MAX));
}

// ---- directory listings ----------------------------------------------------------

#[test]
fn listing_keeps_prefixed_names_in_order() {
    let names: Vec<String> = vec!["BAT1".into(), "AC".into(), "BAT0".into(), "BAT10".into(), "hidpp_battery_0".into()];
    assert_eq!(matching_names(&names, "BAT"), vec!["BAT0".to_string(), "BAT1".into(), "BAT10".into()]);
    assert_eq!(matching_names(&names, ""), vec!["AC".to_string(), "BAT0".into(), "BAT1".into(), "BAT10".into(), "hidpp_battery_0".into()]);
    assert!(matching_names(&names, "ucsi").is_empty());
    assert!(matching_names(&vec![], "BAT").is_empty());
}

#[test]
fn text_order_and_prefix_tests() {
    assert!(text_at_most("cpu1", "cpu10"));
    assert!(!text_at_most("cpu10", "cpu1"));
    assert!(text_at_most("cpu10", "cpu2"));
    assert!(text_at_most("a", "a"));
    assert!(text_at_most("", "a"));
    assert!(text_starts_with("policy0", "policy"));
    assert!(!text_starts_with("pol", "policy"));
    assert!(text_starts_with("x", ""));
}

// ---- the other client commands ------------------------------------------------

#[test]
fn status_report_fills_in_missing_values() {
    let full = StatusSummary {
        on_ac: Some(true),
        percent: some("64"),
        profile: some("balanced"),
        thermal_level: some("normal"),
        brightness_percent: Some(70),
        active_inhibitors: Some(2),
        idle_seconds: Some(45),
    };
    assert_eq!(
        status_lines(&full),
        vec![
            "Power source : AC",
            "Battery      : 64%",
            "Profile      : balanced",
            "Thermal      : normal",
            "Brightness   : 70%",
            "Inhibitors   : 2 active",
            "Idle for     : 45s",
        ]
    );
    let empty = StatusSummary {
        on_ac: None,
        percent: None,
        profile: None,
        thermal_level: None,
        brightness_percent: None,
        active_inhibitors: None,
        idle_seconds: None,
    };
    assert_eq!(
        status_lines(&empty),
        vec![
            "Power source : Battery",
            "Profile      : unknown",
            "Thermal      : unknown",
            "Inhibitors   : 0 active",
            "Idle for     : 0s",
        ]
    );
}

#[test]
fn thermal_report_lists_zones_in_columns() {
    let s = ThermalSummary {
        level: some("warm"),
        highest_temp: some("71.5"),
        warning_temp: some("80.0"),
        critical_temp: some("95.0"),
    };
    let zones = vec![
        ZoneSummary { id: some("thermal_zone0"), zone_type: some("x86_pkg_temp"), temperature: some("71.5") },
        ZoneSummary { id: None, zone_type: None, temperature: None },
    ];
    assert_eq!(
        thermal_lines(&s, Some(&zones)),
        vec![
            "Thermal level : warm".to_string(),
            "Highest zone  : 71.5\u{b0}C".into(),
            "Warning / crit: 80.0\u{b0}C / 95.0\u{b0}C".into(),
            "".into(),
            "Zones:".into(),
            "  thermal_zone0    x86_pkg_temp   71.5\u{b0}C".into(),
            "  ?                ?              (unavailable)".into(),
        ]
    );
}

#[test]
fn thermal_report_without_data_or_zones() {
    let s = ThermalSummary { level: None, highest_temp: None, warning_temp: None, critical_temp: None };
    let expected = vec!["Thermal level : unknown".to_string(), "Warning / crit: 0.0\u{b0}C / 0.0\u{b0}C".into()];
    assert_eq!(thermal_lines(&s, None), expected);
    assert_eq!(thermal_lines(&s, Some(&vec![])), expected);
}

#[test]
fn profile_report_marks_the_current_profile() {
    assert_eq!(profile_set_line("powersave"), "Profile set to 'powersave'");
    let list = vec![
        ProfileEntry { name: some("performance"), description: some("Max clocks") },
        ProfileEntry { name: some("balanced"), description: None },
        ProfileEntry { name: None, description: some("odd") },
    ];
    assert_eq!(
        profile_lines(&some("balanced"), Some(&list)),
        vec![
            "Current profile: balanced",
            "",
            "Available profiles:",
            "   performance    Max clocks",
            " * balanced       ",
            "   ?              odd",
        ]
    );
    assert_eq!(profile_lines(&None, None), vec!["Current profile: unknown"]);
}

#[test]
fn brightness_lines() {
    assert_eq!(brightness_set_line(40), "Brightness set to 40%");
    assert_eq!(brightness_line(Some(55)), "Brightness: 55%");
    assert_eq!(brightness_line(None), "Brightness: 0%");
}

#[test]
fn inhibitor_report_pads_columns() {
    assert!(inhibitor_lines(None).is_empty());
    assert_eq!(inhibitor_lines(Some(&vec![])), vec!["No active inhibitors"]);
    let list = vec![InhibitorSummary { who: some("mpv"), why: some("video"), what: some("idle") }];
    assert_eq!(inhibitor_lines(Some(&list)), vec!["mpv                  [idle    ] video"]);
    let unnamed = vec![InhibitorSummary { who: None, why: None, what: None }];
    assert_eq!(inhibitor_lines(Some(&unnamed)), vec!["?                    [?       ] ?"]);
}

#[test]
fn power_calls_name_method_force_and_message() {
    let r = power_call(PowerCommand::Reboot, true);
    assert_eq!((r.method.as_str(), r.force, r.message.as_str()), ("Reboot", Some(true), "Rebooting..."));
    let r = power_call(PowerCommand::Shutdown, false);
    assert_eq!((r.method.as_str(), r.force, r.message.as_str()), ("Shutdown", Some(false), "Shutting down..."));
    let r = power_call(PowerCommand::SuspendThenHibernate, true);
    assert_eq!(r.method, "SuspendThenHibernate");
    assert_eq!(r.force, None);
    assert_eq!(r.message, "Suspending (will hibernate later if untouched)...");
    assert_eq!(power_call(PowerCommand::HybridSleep, false).message, "Hybrid-sleeping...");
    assert_eq!(power_call(PowerCommand::Poweroff, false).method, "Poweroff");
}

#[test]
fn signals_stop_or_reload_keeping_config_on_failure() {
    assert_eq!(signal_action(LifecycleEvent::Shutdown, true), SignalAction::Stop);
    assert_eq!(signal_action(LifecycleEvent::Shutdown, false), SignalAction::Stop);
    assert_eq!(signal_action(LifecycleEvent::ReloadConfig, true), SignalAction::ReplaceConfig);
    assert_eq!(signal_action(LifecycleEvent::ReloadConfig, false), SignalAction::KeepConfig);
}

#[test]
fn registry_lists_and_blocks_every_held_inhibitor_once() {
    let mut m = InhibitorManager::new();
    let a = m.acquire(1, "a".into(), "x".into(), InhibitWhat::Suspend, InhibitMode::Block);
    let b = m.acquire(2, "b".into(), "y".into(), InhibitWhat::All, InhibitMode::Delay);
    let c = m.acquire(1, "c".into(), "z".into(), InhibitWhat::Idle, InhibitMode::Block);
    let mut ids: Vec<u128> = m.list().iter().map(|i| i.id).collect();
    ids.sort();
    let mut expected = vec![a, b, c];
    expected.sort();
    assert_eq!(ids, expected);
    let mut blockers = m.blockers(InhibitWhat::Suspend);
    blockers.sort();
    assert_eq!(blockers, vec!["a: x".to_string(), "b: y".into()]);
    m.release_all_for_client(1);
    let left = m.list();
    assert_eq!(left.len(), 1);
    assert_eq!(left[0].id, b);
    assert!(m.release(a).is_err());
    assert!(m.release(b).is_ok());
    assert!(m.list().is_empty());
}
