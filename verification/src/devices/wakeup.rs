//! General wakeup-source enumeration via `/sys/class/wakeup`, plus the
//! kernel's system-wide wakeup event counter.

use crate::hardware::sysfs::{read_u64_opt, u64_attr};
use vstd::prelude::*;

verus! {

#[derive(Debug, Clone)]
pub struct WakeupSource {
    pub name: String,
    pub active_count: Option<u64>,
    pub event_count: Option<u64>,
}

/// An entry of `/sys/class/wakeup`: its file name and the readings of its
/// `name`, `active_count` and `event_count` attributes.
#[derive(Debug, Clone)]
pub struct WakeupEntry {
    pub file_name: String,
    pub name: Option<String>,
    pub active_count: Option<String>,
    pub event_count: Option<String>,
}

/// A source named by its `name` attribute, or by its entry's file name when
/// that is unreadable.
pub open spec fn source_of(e: WakeupEntry) -> WakeupSource {
    WakeupSource {
        name: match e.name {
            Some(n) => n,
            None => e.file_name,
        },
        active_count: u64_attr(e.active_count),
        event_count: u64_attr(e.event_count),
    }
}

pub fn discover(entries: &Vec<WakeupEntry>) -> (r: Vec<WakeupSource>)
    ensures
        r@ == entries@.map_values(|e: WakeupEntry| source_of(e)),
{
    let mut out: Vec<WakeupSource> = Vec::new();
    let mut i: usize = 0;
    while i < entries.len()
        invariant
            i <= entries@.len(),
            out@ == entries@.take(i as int).map_values(|e: WakeupEntry| source_of(e)),
        decreases entries@.len() - i,
    {
        let e = &entries[i];
        let name = match &e.name {
            Some(n) => n.clone(),
            None => e.file_name.clone(),
        };
        out.push(
            WakeupSource {
                name,
                active_count: read_u64_opt(&e.active_count),
                event_count: read_u64_opt(&e.event_count),
            },
        );
        assert(entries@.take(i + 1).map_values(|e: WakeupEntry| source_of(e)) =~= entries@.take(
            i as int,
        ).map_values(|e: WakeupEntry| source_of(e)).push(source_of(entries@[i as int])));
        i = i + 1;
    }
    assert(entries@.take(entries@.len() as int) =~= entries@);
    out
}

/// The kernel's running total of wakeup events since boot, from the reading
/// of `/sys/power/wakeup_count` -- a coarse "something just woke the
/// machine" signal.
pub fn wakeup_count(reading: &Option<String>) -> (r: Option<u64>)
    ensures
        r == u64_attr(*reading),
{
    read_u64_opt(reading)
}

} // verus!
