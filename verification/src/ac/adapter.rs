//! A single AC/mains power-supply device, as seen through
//! `/sys/class/power_supply/<name>` where `type` is `Mains`.

use crate::errors::PowerError;
use crate::hardware::sysfs::{read_u64_opt, u64_attr};
use vstd::prelude::*;

verus! {

#[derive(Debug, Clone)]
pub struct AcAdapter {
    pub id: String,
    pub path: String,
    pub online: bool,
}

/// What the `online` attribute says: a nonzero number means online; a
/// missing or unreadable attribute means offline.
pub open spec fn online_value(reading: Option<String>) -> bool {
    match u64_attr(reading) {
        Some(v) => v != 0,
        None => false,
    }
}

impl AcAdapter {
    /// Takes in a fresh reading of the adapter's `online` attribute.
    pub fn refresh(&mut self, online: &Option<String>) -> (r: Result<(), PowerError>)
        ensures
            r is Ok,
            final(self).online == online_value(*online),
            final(self).id == old(self).id,
            final(self).path == old(self).path,
    {
        self.online = match read_u64_opt(online) {
            Some(v) => v != 0,
            None => false,
        };
        Ok(())
    }
}

/// An adapter is online exactly when its `online` attribute reads as a
/// nonzero number; a missing or unreadable attribute means offline.
pub proof fn lemma_online_means_nonzero(reading: Option<String>)
    ensures
        u64_attr(reading) matches Some(v) ==> online_value(reading) == (v != 0),
        u64_attr(reading) is None ==> !online_value(reading),
{
}

} // verus!
