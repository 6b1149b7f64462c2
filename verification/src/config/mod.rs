//! Configuration: the settings of power.toml, profiles.toml, battery.toml,
//! sleep.toml and display.toml, their built-in defaults, and the sanity
//! checks a loaded configuration must pass. (Reading and parsing the files
//! happens in the daemon; thermal.toml's float thresholds stay there too.)

pub mod defaults;
pub mod validation;

pub use defaults::{
    BatteryConfig, Config, CustomProfileToml, DisplayConfig, GeneralConfig, KeyboardConfig,
    LidConfig, PowerButtonConfig, ProfilesConfig, SecurityConfig, SleepConfig,
};
