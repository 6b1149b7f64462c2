//! The set of discovered batteries and what changed on each refresh.

use super::device::{reflects, BatteryDevice, BatteryEntry, BatteryReadings};
use crate::errors::PowerError;
use crate::text::text_eq;
use vstd::prelude::*;

verus! {

/// What changed on the last `refresh()`, so the daemon's event loop can
/// decide whether to emit `BatteryChanged`, `ChargingChanged`, both, or
/// neither (avoids spamming subscribers on every poll tick).
#[derive(Debug, Clone, Copy)]
pub struct RefreshResult {
    pub percentage_changed: bool,
    pub status_changed: bool,
}

impl Default for RefreshResult {
    fn default() -> (r: RefreshResult)
        ensures
            !r.percentage_changed,
            !r.status_changed,
    {
        RefreshResult { percentage_changed: false, status_changed: false }
    }
}

impl RefreshResult {
    pub fn any(&self) -> (r: bool)
        ensures
            r == (self.percentage_changed || self.status_changed),
    {
        self.percentage_changed || self.status_changed
    }
}

fn same_percent(a: Option<u8>, b: Option<u8>) -> (r: bool)
    ensures
        r == (a == b),
{
    match (a, b) {
        (Some(x), Some(y)) => x == y,
        (None, None) => true,
        _ => false,
    }
}

pub struct BatteryManager {
    devices: Vec<BatteryDevice>,
}

impl View for BatteryManager {
    type V = Seq<BatteryDevice>;

    closed spec fn view(&self) -> Seq<BatteryDevice> {
        self.devices@
    }
}

impl BatteryManager {
    /// The manager of the batteries found among the `BAT*` entries.
    pub fn new(entries: &Vec<BatteryEntry>) -> (r: Result<Self, PowerError>)
        ensures
            r matches Ok(m) && m@.len() == entries@.len() && forall|i: int|
                0 <= i < m@.len() ==> reflects(
                    #[trigger] m@[i],
                    entries@[i].name,
                    entries@[i].path,
                    entries@[i].readings,
                ),
    {
        let devices = BatteryDevice::discover(entries)?;
        Ok(BatteryManager { devices })
    }

    /// The batteries, in discovery order.
    pub fn devices(&self) -> (r: &Vec<BatteryDevice>)
        ensures
            r@ == self@,
    {
        &self.devices
    }

    /// Takes in fresh readings for every battery, in the order of
    /// `devices()`, and reports whether any capacity percentage or any
    /// status text changed.
    pub fn refresh(&mut self, readings: &Vec<BatteryReadings>) -> (r: Result<
        RefreshResult,
        PowerError,
    >)
        requires
            readings@.len() == old(self)@.len(),
        ensures
            final(self)@.len() == old(self)@.len(),
            forall|i: int|
                0 <= i < old(self)@.len() ==> reflects(
                    #[trigger] final(self)@[i],
                    old(self)@[i].id,
                    old(self)@[i].path,
                    readings@[i],
                ),
            r matches Ok(res) && res.percentage_changed == (exists|i: int|
                0 <= i < old(self)@.len() && (#[trigger] final(self)@[i]).capacity_percent
                    != old(self)@[i].capacity_percent) && res.status_changed == (exists|i: int|
                0 <= i < old(self)@.len() && (#[trigger] final(self)@[i]).status_raw@
                    != old(self)@[i].status_raw@),
    {
        let mut result = RefreshResult::default();
        let n = self.devices.len();
        let ghost before = self.devices@;
        let mut i: usize = 0;
        while i < n
            invariant
                n == self.devices@.len(),
                n == readings@.len(),
                before.len() == n,
                i <= n,
                forall|k: int|
                    0 <= k < i ==> reflects(
                        #[trigger] self.devices@[k],
                        before[k].id,
                        before[k].path,
                        readings@[k],
                    ),
                forall|k: int| i <= k < n ==> #[trigger] self.devices@[k] == before[k],
                result.percentage_changed == (exists|k: int|
                    0 <= k < i && (#[trigger] self.devices@[k]).capacity_percent
                        != before[k].capacity_percent),
                result.status_changed == (exists|k: int|
                    0 <= k < i && (#[trigger] self.devices@[k]).status_raw@
                        != before[k].status_raw@),
            decreases n - i,
        {
            let ghost prev = self.devices@;
            let before_pct = self.devices[i].capacity_percent;
            let before_status = self.devices[i].status_raw.clone();
            let mut dev = BatteryDevice {
                id: self.devices[i].id.clone(),
                path: self.devices[i].path.clone(),
                present: self.devices[i].present,
                status_raw: self.devices[i].status_raw.clone(),
                capacity_percent: self.devices[i].capacity_percent,
                energy_now_uwh: None,
                energy_full_uwh: None,
                energy_full_design_uwh: None,
                charge_now_uah: None,
                charge_full_uah: None,
                charge_full_design_uah: None,
                power_now_uw: None,
                voltage_now_uv: None,
                current_now_ua: None,
                temp_decidegrees: None,
                cycle_count: None,
                technology: None,
                manufacturer: None,
                model_name: None,
            };
            let _ = dev.refresh(&readings[i]);
            let pct_changed = !same_percent(dev.capacity_percent, before_pct);
            let status_changed = !text_eq(dev.status_raw.as_str(), before_status.as_str());
            self.devices.set(i, dev);
            if pct_changed {
                result.percentage_changed = true;
            }
            if status_changed {
                result.status_changed = true;
            }
            proof {
                assert(forall|k: int| 0 <= k < i ==> self.devices@[k] == prev[k]);
                assert(self.devices@[i as int].capacity_percent != before[i as int].capacity_percent
                    <==> pct_changed);
                assert(self.devices@[i as int].status_raw@ != before[i as int].status_raw@
                    <==> status_changed);
            }
            i = i + 1;
        }
        Ok(result)
    }

    pub fn is_empty(&self) -> (r: bool)
        ensures
            r == (self@.len() == 0),
    {
        self.devices.len() == 0
    }
}

/// Re-reading unchanged attribute values reports no change: two devices
/// that hold what the same readings say agree on the capacity percentage
/// and the status text, so a refresh from one to the other sets neither
/// flag (the event loop does not re-announce an unchanged battery on every
/// poll tick).
pub proof fn lemma_unchanged_readings_report_nothing(
    before: BatteryDevice,
    after: BatteryDevice,
    id: String,
    path: String,
    r: BatteryReadings,
)
    requires
        reflects(before, id, path, r),
        reflects(after, id, path, r),
    ensures
        after.capacity_percent == before.capacity_percent,
        after.status_raw@ == before.status_raw@,
{
}

} // verus!
