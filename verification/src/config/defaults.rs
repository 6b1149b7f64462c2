//! Every config struct, each with an explicit `Default` (so a file that
//! leaves a key out gets a sane value, e.g. `short_press = "suspend"` rather
//! than an empty string).

use vstd::prelude::*;

verus! {

// ---- power.toml ------------------------------------------------------

#[derive(Debug, Clone)]
pub struct GeneralConfig {
    pub socket_path: String,
    pub socket_group: String,
    pub log_level: String,
    pub state_dir: String,
}

/// `c` holds the built-in defaults of its settings.
pub open spec fn general_defaults(c: GeneralConfig) -> bool {
    &&& c.socket_path@ == "/run/mitos/power.sock"@
    &&& c.socket_group@ == "power"@
    &&& c.log_level@ == "info"@
    &&& c.state_dir@ == "/var/lib/mitos/power"@
}

impl Default for GeneralConfig {
    fn default() -> (r: Self)
        ensures
            general_defaults(r),
    {
        GeneralConfig {
            socket_path: String::from_str("/run/mitos/power.sock"),
            socket_group: String::from_str("power"),
            log_level: String::from_str("info"),
            state_dir: String::from_str("/var/lib/mitos/power"),
        }
    }
}

#[derive(Debug, Clone)]
pub struct SecurityConfig {
    pub privileged_group: String,
}

/// `c` holds the built-in defaults of its settings.
pub open spec fn security_defaults(c: SecurityConfig) -> bool {
    &&& c.privileged_group@ == "power"@
}

impl Default for SecurityConfig {
    fn default() -> (r: Self)
        ensures
            security_defaults(r),
    {
        SecurityConfig { privileged_group: String::from_str("power") }
    }
}

#[derive(Debug, Clone)]
pub struct PowerButtonConfig {
    pub short_press: String,
    pub long_press: String,
    pub multi_press: String,
    pub long_press_threshold_ms: u64,
    pub multi_press_window_ms: u64,
}

/// `c` holds the built-in defaults of its settings.
pub open spec fn power_button_defaults(c: PowerButtonConfig) -> bool {
    &&& c.short_press@ == "suspend"@
    &&& c.long_press@ == "shutdown"@
    &&& c.multi_press@ == "ignore"@
    &&& c.long_press_threshold_ms == 1500
    &&& c.multi_press_window_ms == 600
}

impl Default for PowerButtonConfig {
    fn default() -> (r: Self)
        ensures
            power_button_defaults(r),
    {
        PowerButtonConfig {
            short_press: String::from_str("suspend"),
            long_press: String::from_str("shutdown"),
            multi_press: String::from_str("ignore"),
            long_press_threshold_ms: 1500,
            multi_press_window_ms: 600,
        }
    }
}

#[derive(Debug, Clone)]
pub struct KeyboardConfig {
    pub brightness_hotkeys: bool,
}

/// `c` holds the built-in defaults of its settings.
pub open spec fn keyboard_defaults(c: KeyboardConfig) -> bool {
    &&& !c.brightness_hotkeys
}

impl Default for KeyboardConfig {
    fn default() -> (r: Self)
        ensures
            keyboard_defaults(r),
    {
        KeyboardConfig { brightness_hotkeys: false }
    }
}

// ---- profiles.toml -----------------------------------------------------

/// A `[[profile]]` entry of profiles.toml, as far as validation reads it.
#[derive(Debug, Clone)]
pub struct CustomProfileToml {
    pub name: String,
}

#[derive(Debug, Clone)]
pub struct ProfilesConfig {
    pub default_profile: String,
    pub profile: Vec<CustomProfileToml>,
}

/// `c` holds the built-in defaults of its settings.
pub open spec fn profiles_defaults(c: ProfilesConfig) -> bool {
    &&& c.default_profile@ == "balanced"@
    &&& c.profile@.len() == 0
}

impl Default for ProfilesConfig {
    fn default() -> (r: Self)
        ensures
            profiles_defaults(r),
    {
        ProfilesConfig { default_profile: String::from_str("balanced"), profile: Vec::new() }
    }
}

// ---- battery.toml ------------------------------------------------------

#[derive(Debug, Clone)]
pub struct BatteryConfig {
    pub poll_interval_secs: u64,
    pub low_threshold_percent: u8,
    pub low_action: String,
    pub critical_threshold_percent: u8,
    pub critical_action: String,
}

/// `c` holds the built-in defaults of its settings.
pub open spec fn battery_defaults(c: BatteryConfig) -> bool {
    &&& c.poll_interval_secs == 30
    &&& c.low_threshold_percent == 20
    &&& c.low_action@ == "notify"@
    &&& c.critical_threshold_percent == 5
    &&& c.critical_action@ == "hibernate"@
}

impl Default for BatteryConfig {
    fn default() -> (r: Self)
        ensures
            battery_defaults(r),
    {
        BatteryConfig {
            poll_interval_secs: 30,
            low_threshold_percent: 20,
            low_action: String::from_str("notify"),
            critical_threshold_percent: 5,
            critical_action: String::from_str("hibernate"),
        }
    }
}

// ---- sleep.toml --------------------------------------------------------

#[derive(Debug, Clone)]
pub struct LidConfig {
    pub close_action_ac: String,
    pub close_action_battery: String,
    pub open_action: String,
    pub external_monitor_ignore_lid: bool,
}

/// `c` holds the built-in defaults of its settings.
pub open spec fn lid_defaults(c: LidConfig) -> bool {
    &&& c.close_action_ac@ == "lock"@
    &&& c.close_action_battery@ == "suspend"@
    &&& c.open_action@ == "wake"@
    &&& c.external_monitor_ignore_lid
}

impl Default for LidConfig {
    fn default() -> (r: Self)
        ensures
            lid_defaults(r),
    {
        LidConfig {
            close_action_ac: String::from_str("lock"),
            close_action_battery: String::from_str("suspend"),
            open_action: String::from_str("wake"),
            external_monitor_ignore_lid: true,
        }
    }
}

#[derive(Debug, Clone)]
pub struct SleepConfig {
    pub default_method: String,
    pub lock_before_suspend: bool,
    pub suspend_then_hibernate_delay_mins: u64,
    pub lid: LidConfig,
}

/// `c` holds the built-in defaults of its settings, the lid's among them.
pub open spec fn sleep_defaults(c: SleepConfig) -> bool {
    &&& c.default_method@ == "suspend"@
    &&& c.lock_before_suspend
    &&& c.suspend_then_hibernate_delay_mins == 120
    &&& lid_defaults(c.lid)
}

impl Default for SleepConfig {
    fn default() -> (r: Self)
        ensures
            sleep_defaults(r),
    {
        SleepConfig {
            default_method: String::from_str("suspend"),
            lock_before_suspend: true,
            suspend_then_hibernate_delay_mins: 120,
            lid: LidConfig::default(),
        }
    }
}

// ---- display.toml -------------------------------------------------------

#[derive(Debug, Clone)]
pub struct DisplayConfig {
    pub default_brightness_percent: u8,
    pub dim_timeout_secs: u64,
    pub off_timeout_secs: u64,
    pub suspend_on_idle: bool,
    pub suspend_timeout_secs: u64,
    pub night_mode_enabled: bool,
    pub night_mode_start: String,
    pub night_mode_end: String,
}

/// `c` holds the built-in defaults of its settings.
pub open spec fn display_defaults(c: DisplayConfig) -> bool {
    &&& c.default_brightness_percent == 70
    &&& c.dim_timeout_secs == 300
    &&& c.off_timeout_secs == 600
    &&& !c.suspend_on_idle
    &&& c.suspend_timeout_secs == 1800
    &&& !c.night_mode_enabled
    &&& c.night_mode_start@ == "21:00"@
    &&& c.night_mode_end@ == "07:00"@
}

impl Default for DisplayConfig {
    fn default() -> (r: Self)
        ensures
            display_defaults(r),
    {
        DisplayConfig {
            default_brightness_percent: 70,
            dim_timeout_secs: 300,
            off_timeout_secs: 600,
            suspend_on_idle: false,
            suspend_timeout_secs: 1800,
            night_mode_enabled: false,
            night_mode_start: String::from_str("21:00"),
            night_mode_end: String::from_str("07:00"),
        }
    }
}

// ---- the whole configuration -------------------------------------------

#[derive(Debug, Clone)]
pub struct Config {
    pub general: GeneralConfig,
    pub security: SecurityConfig,
    pub power_button: PowerButtonConfig,
    pub keyboard: KeyboardConfig,
    pub profiles: ProfilesConfig,
    pub battery: BatteryConfig,
    pub sleep: SleepConfig,
    pub display: DisplayConfig,
}

/// `c` holds the built-in default of every setting that validation reads.
pub open spec fn has_default_limits(c: Config) -> bool {
    &&& c.battery.low_threshold_percent == 20
    &&& c.battery.critical_threshold_percent == 5
    &&& c.display.dim_timeout_secs == 300
    &&& c.display.off_timeout_secs == 600
    &&& c.display.default_brightness_percent == 70
    &&& c.profiles.default_profile@ == "balanced"@
    &&& c.profiles.profile@.len() == 0
}

impl Default for Config {
    fn default() -> (r: Self)
        ensures
            has_default_limits(r),
            general_defaults(r.general),
            security_defaults(r.security),
            power_button_defaults(r.power_button),
            keyboard_defaults(r.keyboard),
            profiles_defaults(r.profiles),
            battery_defaults(r.battery),
            sleep_defaults(r.sleep),
            display_defaults(r.display),
    {
        Config {
            general: GeneralConfig::default(),
            security: SecurityConfig::default(),
            power_button: PowerButtonConfig::default(),
            keyboard: KeyboardConfig::default(),
            profiles: ProfilesConfig::default(),
            battery: BatteryConfig::default(),
            sleep: SleepConfig::default(),
            display: DisplayConfig::default(),
        }
    }
}

} // verus!
