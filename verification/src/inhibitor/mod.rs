//! Power inhibitors: applications and system components temporarily
//! blocking suspend/shutdown/idle actions ("Movie is playing", "Backup
//! running", ...).

pub mod inhibitor;
pub mod manager;
pub mod reason;

pub use inhibitor::{Inhibitor, InhibitorInfo};
pub use manager::InhibitorManager;
pub use reason::{InhibitMode, InhibitWhat};
