//! The decisions of the daemon's event loop and signal handling; the loop
//! itself (timers, udev, signals) runs in the daemon.

pub mod event_loop;
pub mod lifecycle;
