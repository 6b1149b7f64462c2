//! Discovers AC/mains adapters. Naming varies a lot by vendor (AC, ACAD,
//! ADP0, ADP1, ...), so instead of matching on the name we check the `type`
//! attribute, which the kernel standardizes to `Mains` for AC adapters (as
//! opposed to `Battery` or `USB`).

use super::adapter::{online_value, AcAdapter};
use crate::errors::PowerError;
use crate::hardware::capabilities::text_or_empty;
use crate::text::text_eq;
use vstd::prelude::*;

verus! {

/// One entry of `/sys/class/power_supply`: its name, its path, and the
/// readings of its `type` and `online` attributes.
#[derive(Debug, Clone)]
pub struct PowerSupplyEntry {
    pub name: String,
    pub path: String,
    pub kind: Option<String>,
    pub online: Option<String>,
}

pub open spec fn is_mains(kind: Option<String>) -> bool {
    text_or_empty(kind) == "Mains"@
}

pub open spec fn adapter_of(e: PowerSupplyEntry) -> AcAdapter {
    AcAdapter { id: e.name, path: e.path, online: online_value(e.online) }
}

/// The adapters among `entries`, in order: one for each entry whose type is
/// `Mains`.
pub open spec fn mains_adapters(entries: Seq<PowerSupplyEntry>) -> Seq<AcAdapter>
    decreases entries.len(),
{
    if entries.len() == 0 {
        Seq::empty()
    } else {
        let rest = mains_adapters(entries.drop_last());
        if is_mains(entries.last().kind) {
            rest.push(adapter_of(entries.last()))
        } else {
            rest
        }
    }
}

fn kind_is_mains(kind: &Option<String>) -> (r: bool)
    ensures
        r == is_mains(*kind),
{
    match kind {
        Some(k) => text_eq(k.as_str(), "Mains"),
        None => {
            let empty = String::new();
            text_eq(empty.as_str(), "Mains")
        },
    }
}

pub fn discover(supplies: &Vec<PowerSupplyEntry>) -> (r: Result<Vec<AcAdapter>, PowerError>)
    ensures
        r matches Ok(v) && v@ == mains_adapters(supplies@),
{
    let mut out: Vec<AcAdapter> = Vec::new();
    let mut i: usize = 0;
    assert(supplies@.take(0) =~= Seq::<PowerSupplyEntry>::empty());
    while i < supplies.len()
        invariant
            i <= supplies@.len(),
            out@ == mains_adapters(supplies@.take(i as int)),
        decreases supplies@.len() - i,
    {
        let e = &supplies[i];
        assert(supplies@.take(i + 1).drop_last() =~= supplies@.take(i as int));
        assert(supplies@.take(i + 1).last() == supplies@[i as int]);
        if kind_is_mains(&e.kind) {
            let mut adapter = AcAdapter { id: e.name.clone(), path: e.path.clone(), online: false };
            let _ = adapter.refresh(&e.online);
            out.push(adapter);
        }
        i = i + 1;
    }
    assert(supplies@.take(supplies@.len() as int) =~= supplies@);
    Ok(out)
}

} // verus!
