//! A single held inhibitor. Identifiers are UUIDs held as their 128-bit
//! value.

use super::reason::{InhibitMode, InhibitWhat};
use vstd::prelude::*;

verus! {

/// A UTC wall-clock time: whole seconds since the Unix epoch and the
/// nanoseconds within that second.
#[derive(Debug, Clone, Copy, PartialEq, Eq, Structural)]
pub struct UtcTimestamp {
    pub secs: i64,
    pub nanos: u32,
}

/// The instant `secs` seconds and `nanos` nanoseconds after the Unix epoch,
/// or that long before it, as signed nanoseconds since the epoch.
pub open spec fn epoch_offset_nanos(before_epoch: bool, secs: u64, nanos: u32) -> int {
    let n = secs * 1_000_000_000 + nanos;
    if before_epoch {
        -n
    } else {
        n
    }
}

/// The timestamp of the instant `t` nanoseconds after the Unix epoch (before
/// it when negative): the floor of `t` in seconds and the nanoseconds past
/// that second. An instant whose seconds leave the range of `i64` is clamped
/// to the first or last representable instant.
pub open spec fn timestamp_at(t: int) -> UtcTimestamp {
    let s = t / 1_000_000_000;
    if s > i64::MAX {
        UtcTimestamp { secs: i64::MAX, nanos: 999_999_999 }
    } else if s < i64::MIN {
        UtcTimestamp { secs: i64::MIN, nanos: 0 }
    } else {
        UtcTimestamp { secs: s as i64, nanos: (t % 1_000_000_000) as u32 }
    }
}

impl UtcTimestamp {
    /// The timestamp of the instant that lies `secs` seconds and `nanos`
    /// nanoseconds after the Unix epoch, or before it when `before_epoch`.
    pub fn from_epoch_offset(before_epoch: bool, secs: u64, nanos: u32) -> (r: UtcTimestamp)
        requires
            nanos < 1_000_000_000,
        ensures
            r == timestamp_at(epoch_offset_nanos(before_epoch, secs, nanos)),
            r.nanos < 1_000_000_000,
    {
        let ghost t = epoch_offset_nanos(before_epoch, secs, nanos);
        if !before_epoch {
            proof {
                vstd::arithmetic::div_mod::lemma_fundamental_div_mod_converse(
                    t,
                    1_000_000_000,
                    secs as int,
                    nanos as int,
                );
            }
            if secs <= 9_223_372_036_854_775_807u64 {
                UtcTimestamp { secs: secs as i64, nanos }
            } else {
                UtcTimestamp { secs: i64::MAX, nanos: 999_999_999 }
            }
        } else if nanos == 0 {
            proof {
                vstd::arithmetic::div_mod::lemma_fundamental_div_mod_converse(
                    t,
                    1_000_000_000,
                    -(secs as int),
                    0,
                );
            }
            let s: i128 = -(secs as i128);
            if s >= -9_223_372_036_854_775_808i128 {
                UtcTimestamp { secs: s as i64, nanos: 0 }
            } else {
                UtcTimestamp { secs: i64::MIN, nanos: 0 }
            }
        } else {
            proof {
                vstd::arithmetic::div_mod::lemma_fundamental_div_mod_converse(
                    t,
                    1_000_000_000,
                    -(secs as int) - 1,
                    1_000_000_000 - nanos,
                );
            }
            let s: i128 = -(secs as i128) - 1;
            if s >= -9_223_372_036_854_775_808i128 {
                UtcTimestamp { secs: s as i64, nanos: 1_000_000_000u32 - nanos }
            } else {
                UtcTimestamp { secs: i64::MIN, nanos: 0 }
            }
        }
    }
}

#[derive(Debug)]
pub struct Inhibitor {
    pub id: u128,
    pub client_id: u128,
    pub who: String,
    pub why: String,
    pub what: InhibitWhat,
    pub mode: InhibitMode,
    pub created_at: UtcTimestamp,
}

/// What `ListInhibitors` reports of an inhibitor.
#[derive(Debug)]
pub struct InhibitorInfo {
    pub id: u128,
    pub who: String,
    pub why: String,
    pub what: InhibitWhat,
    pub mode: InhibitMode,
    pub created_at: UtcTimestamp,
}

pub open spec fn info_of(i: Inhibitor) -> InhibitorInfo {
    InhibitorInfo {
        id: i.id,
        who: i.who,
        why: i.why,
        what: i.what,
        mode: i.mode,
        created_at: i.created_at,
    }
}

impl Inhibitor {
    pub fn info(&self) -> (r: InhibitorInfo)
        ensures
            r == info_of(*self),
    {
        InhibitorInfo {
            id: self.id,
            who: self.who.clone(),
            why: self.why.clone(),
            what: self.what,
            mode: self.mode,
            created_at: self.created_at,
        }
    }
}

} // verus!
