//! The shape of a kernel hotplug (uevent) notification, as forwarded by the
//! udev monitor.

use vstd::prelude::*;

verus! {

#[derive(Debug, Clone)]
pub struct UeventMessage {
    pub subsystem: String,
    pub action: String,
    pub sysname: String,
    pub devpath: String,
}

} // verus!
