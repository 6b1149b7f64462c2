//! USB per-device wakeup control via `/sys/bus/usb/devices/*/power/wakeup`
//! (`enabled` | `disabled`).

use crate::errors::PowerError;
use crate::hardware::sysfs::{attr_path, join_attr, SysfsWrite};
use crate::text::text_eq;
use vstd::prelude::*;

verus! {

#[derive(Debug, Clone)]
pub struct UsbWakeupDevice {
    pub id: String,
    pub path: String,
    pub wakeup_enabled: Option<bool>,
}

/// An entry of `/sys/bus/usb/devices`: its name, its path, whether it has a
/// `power/wakeup` file, and that file's reading.
#[derive(Debug, Clone)]
pub struct UsbEntry {
    pub name: String,
    pub path: String,
    pub wakeup_present: bool,
    pub wakeup: Option<String>,
}

pub open spec fn wakeup_state(reading: Option<String>) -> Option<bool> {
    match reading {
        Some(t) => Some(t@ == "enabled"@),
        None => None,
    }
}

/// The wakeup-capable devices among `entries`, in order: those with a
/// `power/wakeup` file (not every entry is, e.g. interfaces).
pub open spec fn wakeup_devices(entries: Seq<UsbEntry>) -> Seq<UsbWakeupDevice>
    decreases entries.len(),
{
    if entries.len() == 0 {
        Seq::empty()
    } else if entries.last().wakeup_present {
        wakeup_devices(entries.drop_last()).push(
            UsbWakeupDevice {
                id: entries.last().name,
                path: entries.last().path,
                wakeup_enabled: wakeup_state(entries.last().wakeup),
            },
        )
    } else {
        wakeup_devices(entries.drop_last())
    }
}

pub fn discover(entries: &Vec<UsbEntry>) -> (r: Result<Vec<UsbWakeupDevice>, PowerError>)
    ensures
        r matches Ok(v) && v@ == wakeup_devices(entries@),
{
    let mut out: Vec<UsbWakeupDevice> = Vec::new();
    let mut i: usize = 0;
    assert(entries@.take(0) =~= Seq::<UsbEntry>::empty());
    while i < entries.len()
        invariant
            i <= entries@.len(),
            out@ == wakeup_devices(entries@.take(i as int)),
        decreases entries@.len() - i,
    {
        assert(entries@.take(i + 1).drop_last() =~= entries@.take(i as int));
        assert(entries@.take(i + 1).last() == entries@[i as int]);
        let e = &entries[i];
        if e.wakeup_present {
            let wakeup_enabled = match &e.wakeup {
                Some(t) => Some(text_eq(t.as_str(), "enabled")),
                None => None,
            };
            out.push(UsbWakeupDevice { id: e.name.clone(), path: e.path.clone(), wakeup_enabled });
        }
        i = i + 1;
    }
    assert(entries@.take(entries@.len() as int) =~= entries@);
    Ok(out)
}

/// The write that turns the device's wakeup on or off.
pub fn set_wakeup(device: &UsbWakeupDevice, enabled: bool) -> (w: SysfsWrite)
    ensures
        w.path@ == attr_path(device.path@, "power/wakeup"@),
        w.value@ == (if enabled {
            "enabled"@
        } else {
            "disabled"@
        }),
{
    let value = if enabled {
        String::from_str("enabled")
    } else {
        String::from_str("disabled")
    };
    SysfsWrite { path: join_attr(device.path.as_str(), "power/wakeup"), value }
}

/// A device's wakeup is on exactly when its `power/wakeup` attribute reads
/// `enabled`; without the attribute the device is not wakeup-capable.
pub proof fn lemma_wakeup_enabled_word(reading: Option<String>)
    ensures
        reading matches Some(t) ==> wakeup_state(reading) == Some(t@ == "enabled"@),
        reading is None ==> wakeup_state(reading) is None,
{
}

} // verus!
