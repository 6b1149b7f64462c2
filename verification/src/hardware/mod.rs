//! Low-level hardware interfaces: what sysfs attribute values mean, which
//! capabilities a machine has, and the shape of hotplug events.

pub mod acpi;
pub mod capabilities;
pub mod listing;
pub mod sysfs;
pub mod uevent;


pub use capabilities::HardwareCapabilities;
