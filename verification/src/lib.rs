//! mitos-power: the decision logic of the MITOS power-management daemon.
//!
//! Everything that touches the machine (sysfs reads and writes, directory
//! listings, signals, udev, sockets) happens outside this crate; the
//! functions here take what was read as plain values and return what should
//! be done, each with a contract that states the result.

pub mod ac;
pub mod battery;
pub mod config;
pub mod cpu;
pub mod daemon;
pub mod devices;
pub mod display;
pub mod errors;
pub mod hardware;
pub mod idle;
pub mod inhibitor;
pub mod powerctl;
pub mod text;
