//! Display power: the backlight device (driven through sysfs), the intended
//! on/dim/off state, the idle tiers, and the night-mode schedule.

pub mod backlight;
pub mod brightness;
pub mod display_power;
pub mod night_mode;
pub mod timeout;

pub use display_power::{DisplayPowerController, DisplayPowerState};
pub use brightness::BrightnessController;
