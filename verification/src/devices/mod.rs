//! Input-adjacent devices: power button, brightness hotkeys, and
//! wakeup-source management for USB and other buses.

pub mod keyboard;
pub mod power_button;
pub mod usb;
pub mod wakeup;
