//! Battery discovery and monitoring: raw attribute values and the states
//! derived from them.

pub mod battery;
pub mod charging;
pub mod device;

pub use battery::{BatteryManager, RefreshResult};
pub use charging::ChargingState;
pub use device::BatteryDevice;
