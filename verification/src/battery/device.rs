//! A single battery as seen through `/sys/class/power_supply/BATx`.

use crate::errors::PowerError;
use crate::hardware::sysfs::{i64_attr, read_i64_opt, read_u64_opt, u64_attr};
use crate::text::text_eq;
use vstd::prelude::*;

verus! {

/// Raw values last read from one battery power-supply device. Fields beyond
/// `id`/`path` are replaced on every `refresh()`.
#[derive(Debug, Clone)]
pub struct BatteryDevice {
    pub id: String,
    pub path: String,
    pub present: bool,
    pub status_raw: String,
    pub capacity_percent: Option<u8>,
    pub energy_now_uwh: Option<u64>,
    pub energy_full_uwh: Option<u64>,
    pub energy_full_design_uwh: Option<u64>,
    pub charge_now_uah: Option<u64>,
    pub charge_full_uah: Option<u64>,
    pub charge_full_design_uah: Option<u64>,
    pub power_now_uw: Option<u64>,
    pub voltage_now_uv: Option<u64>,
    pub current_now_ua: Option<u64>,
    pub temp_decidegrees: Option<i64>,
    pub cycle_count: Option<u64>,
    pub technology: Option<String>,
    pub manufacturer: Option<String>,
    pub model_name: Option<String>,
}

/// The readings of one battery's attributes (`present`, `status`,
/// `capacity`, `energy_now`, `energy_full`, `energy_full_design`,
/// `charge_now`, `charge_full`, `charge_full_design`, `power_now`,
/// `voltage_now`, `current_now`, `temp`, `cycle_count`, `technology`,
/// `manufacturer`, `model_name`); `None` where the file could not be read.
#[derive(Debug, Clone)]
pub struct BatteryReadings {
    pub present: Option<String>,
    pub status: Option<String>,
    pub capacity: Option<String>,
    pub energy_now: Option<String>,
    pub energy_full: Option<String>,
    pub energy_full_design: Option<String>,
    pub charge_now: Option<String>,
    pub charge_full: Option<String>,
    pub charge_full_design: Option<String>,
    pub power_now: Option<String>,
    pub voltage_now: Option<String>,
    pub current_now: Option<String>,
    pub temp: Option<String>,
    pub cycle_count: Option<String>,
    pub technology: Option<String>,
    pub manufacturer: Option<String>,
    pub model_name: Option<String>,
}

/// One `BAT*` entry of the power-supply class: its name, path and readings.
#[derive(Debug, Clone)]
pub struct BatteryEntry {
    pub name: String,
    pub path: String,
    pub readings: BatteryReadings,
}

/// `present` is `1` when the battery is inserted; an unreadable attribute
/// counts as present.
pub open spec fn present_value(reading: Option<String>) -> bool {
    match reading {
        Some(t) => t@ == "1"@,
        None => true,
    }
}

/// The status text, `Unknown` when unreadable.
pub open spec fn status_text(reading: Option<String>) -> Seq<char> {
    match reading {
        Some(t) => t@,
        None => "Unknown"@,
    }
}

/// The kernel's capacity percentage, capped at 100.
pub open spec fn capacity_value(reading: Option<String>) -> Option<u8> {
    match u64_attr(reading) {
        Some(v) => Some(
            if v < 100 {
                v as u8
            } else {
                100u8
            },
        ),
        None => None,
    }
}

/// `d` holds what the readings `r` say of battery `id` at `path`.
pub open spec fn reflects(d: BatteryDevice, id: String, path: String, r: BatteryReadings) -> bool {
    &&& d.id == id
    &&& d.path == path
    &&& d.present == present_value(r.present)
    &&& d.status_raw@ == status_text(r.status)
    &&& d.capacity_percent == capacity_value(r.capacity)
    &&& d.energy_now_uwh == u64_attr(r.energy_now)
    &&& d.energy_full_uwh == u64_attr(r.energy_full)
    &&& d.energy_full_design_uwh == u64_attr(r.energy_full_design)
    &&& d.charge_now_uah == u64_attr(r.charge_now)
    &&& d.charge_full_uah == u64_attr(r.charge_full)
    &&& d.charge_full_design_uah == u64_attr(r.charge_full_design)
    &&& d.power_now_uw == u64_attr(r.power_now)
    &&& d.voltage_now_uv == u64_attr(r.voltage_now)
    &&& d.current_now_ua == u64_attr(r.current_now)
    &&& d.temp_decidegrees == i64_attr(r.temp)
    &&& d.cycle_count == u64_attr(r.cycle_count)
    &&& d.technology == r.technology
    &&& d.manufacturer == r.manufacturer
    &&& d.model_name == r.model_name
}

fn copy_text(t: &Option<String>) -> (r: Option<String>)
    ensures
        r == *t,
{
    match t {
        Some(s) => Some(s.clone()),
        None => None,
    }
}

impl BatteryDevice {
    /// One device per `BAT*` entry, in the order given, each holding what
    /// its readings say.
    pub fn discover(entries: &Vec<BatteryEntry>) -> (r: Result<Vec<BatteryDevice>, PowerError>)
        ensures
            r matches Ok(v) && v@.len() == entries@.len() && forall|i: int|
                0 <= i < v@.len() ==> reflects(
                    #[trigger] v@[i],
                    entries@[i].name,
                    entries@[i].path,
                    entries@[i].readings,
                ),
    {
        let mut out: Vec<BatteryDevice> = Vec::new();
        let mut i: usize = 0;
        while i < entries.len()
            invariant
                i <= entries@.len(),
                out@.len() == i,
                forall|k: int|
                    0 <= k < i ==> reflects(
                        #[trigger] out@[k],
                        entries@[k].name,
                        entries@[k].path,
                        entries@[k].readings,
                    ),
            decreases entries@.len() - i,
        {
            let e = &entries[i];
            let mut dev = BatteryDevice::empty(e.name.clone(), e.path.clone());
            let _ = dev.refresh(&e.readings);
            out.push(dev);
            i = i + 1;
        }
        Ok(out)
    }

    fn empty(id: String, path: String) -> (d: BatteryDevice)
        ensures
            d.id == id,
            d.path == path,
            !d.present,
            d.status_raw@ == Seq::<char>::empty(),
            d.capacity_percent is None,
            d.energy_now_uwh is None,
            d.energy_full_uwh is None,
            d.energy_full_design_uwh is None,
            d.charge_now_uah is None,
            d.charge_full_uah is None,
            d.charge_full_design_uah is None,
            d.power_now_uw is None,
            d.voltage_now_uv is None,
            d.current_now_ua is None,
            d.temp_decidegrees is None,
            d.cycle_count is None,
            d.technology is None,
            d.manufacturer is None,
            d.model_name is None,
    {
        BatteryDevice {
            id,
            path,
            present: false,
            status_raw: String::new(),
            capacity_percent: None,
            energy_now_uwh: None,
            energy_full_uwh: None,
            energy_full_design_uwh: None,
            charge_now_uah: None,
            charge_full_uah: None,
            charge_full_design_uah: None,
            power_now_uw: None,
            voltage_now_uv: None,
            current_now_ua: None,
            temp_decidegrees: None,
            cycle_count: None,
            technology: None,
            manufacturer: None,
            model_name: None,
        }
    }

    /// Replaces every attribute with what the fresh readings say.
    /// Individual attributes absent on this hardware simply become `None`
    /// rather than failing the whole refresh.
    pub fn refresh(&mut self, r: &BatteryReadings) -> (res: Result<(), PowerError>)
        ensures
            res is Ok,
            reflects(*final(self), old(self).id, old(self).path, *r),
    {
        self.present = match &r.present {
            Some(t) => text_eq(t.as_str(), "1"),
            None => true,
        };
        self.status_raw = match &r.status {
            Some(t) => t.clone(),
            None => String::from_str("Unknown"),
        };
        self.capacity_percent = match read_u64_opt(&r.capacity) {
            Some(v) => Some(
                if v < 100 {
                    v as u8
                } else {
                    100u8
                },
            ),
            None => None,
        };
        self.energy_now_uwh = read_u64_opt(&r.energy_now);
        self.energy_full_uwh = read_u64_opt(&r.energy_full);
        self.energy_full_design_uwh = read_u64_opt(&r.energy_full_design);
        self.charge_now_uah = read_u64_opt(&r.charge_now);
        self.charge_full_uah = read_u64_opt(&r.charge_full);
        self.charge_full_design_uah = read_u64_opt(&r.charge_full_design);
        self.power_now_uw = read_u64_opt(&r.power_now);
        self.voltage_now_uv = read_u64_opt(&r.voltage_now);
        self.current_now_ua = read_u64_opt(&r.current_now);
        self.temp_decidegrees = read_i64_opt(&r.temp);
        self.cycle_count = read_u64_opt(&r.cycle_count);
        self.technology = copy_text(&r.technology);
        self.manufacturer = copy_text(&r.manufacturer);
        self.model_name = copy_text(&r.model_name);
        Ok(())
    }
}

/// Each field of a refreshed device is read from the attribute of the same
/// name: `present` is `1` (or unreadable), the status is the `status` text
/// (`Unknown` when unreadable), the capacity is the `capacity` value capped
/// at 100, and every other field is the value of its own attribute
/// (`energy_full_uwh` of `energy_full`, never of `energy_full_design`).
pub proof fn lemma_fields_follow_attributes(d: BatteryDevice, id: String, path: String, r: BatteryReadings)
    requires
        reflects(d, id, path, r),
    ensures
        d.id == id,
        d.path == path,
        r.present matches Some(t) ==> d.present == (t@ == "1"@),
        r.present is None ==> d.present,
        r.status matches Some(t) ==> d.status_raw@ == t@,
        r.status is None ==> d.status_raw@ == "Unknown"@,
        u64_attr(r.capacity) matches Some(v) ==> d.capacity_percent == Some(
            if v <= 100 {
                v as u8
            } else {
                100u8
            },
        ),
        u64_attr(r.capacity) is None ==> d.capacity_percent is None,
        d.energy_now_uwh == u64_attr(r.energy_now),
        d.energy_full_uwh == u64_attr(r.energy_full),
        d.energy_full_design_uwh == u64_attr(r.energy_full_design),
        d.charge_now_uah == u64_attr(r.charge_now),
        d.charge_full_uah == u64_attr(r.charge_full),
        d.charge_full_design_uah == u64_attr(r.charge_full_design),
        d.power_now_uw == u64_attr(r.power_now),
        d.voltage_now_uv == u64_attr(r.voltage_now),
        d.current_now_ua == u64_attr(r.current_now),
        d.temp_decidegrees == i64_attr(r.temp),
        d.cycle_count == u64_attr(r.cycle_count),
        d.technology == r.technology,
        d.manufacturer == r.manufacturer,
        d.model_name == r.model_name,
{
}

} // verus!
