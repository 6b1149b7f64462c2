//! Turbo/boost control. Intel exposes one global on/off file; AMD's pstate
//! driver exposes it per policy instead, so both are tried.

use crate::errors::PowerError;
use crate::hardware::sysfs::SysfsWrite;
use crate::text::text_eq;
use vstd::prelude::*;

verus! {

/// The global boost switch of the Intel driver.
pub open spec fn intel_boost_path() -> Seq<char> {
    "/sys/devices/system/cpu/cpufreq/boost"@
}

fn intel_boost() -> (r: &'static str)
    ensures
        r@ == intel_boost_path(),
{
    "/sys/devices/system/cpu/cpufreq/boost"
}

/// A cpufreq policy's `boost` file and whether it exists.
#[derive(Debug, Clone)]
pub struct BoostControl {
    pub path: String,
    pub present: bool,
}

pub open spec fn boost_value(enabled: bool) -> Seq<char> {
    if enabled {
        "1"@
    } else {
        "0"@
    }
}

/// The paths of the policies' boost files that exist, in order.
pub open spec fn present_boost_files(policies: Seq<BoostControl>) -> Seq<Seq<char>>
    decreases policies.len(),
{
    if policies.len() == 0 {
        Seq::empty()
    } else if policies.last().present {
        present_boost_files(policies.drop_last()).push(policies.last().path@)
    } else {
        present_boost_files(policies.drop_last())
    }
}

pub open spec fn no_boost_text() -> Seq<char> {
    "no boost control found (checked Intel global + AMD per-policy paths)"@
}

/// `writes` writes `value` to each path of `paths`, in order.
pub open spec fn writes_to(writes: Seq<SysfsWrite>, paths: Seq<Seq<char>>, value: Seq<char>) -> bool {
    &&& writes.len() == paths.len()
    &&& forall|i: int|
        0 <= i < writes.len() ==> (#[trigger] writes[i]).path@ == paths[i] && writes[i].value@
            == value
}

/// The outcome of switching boost: with the Intel switch present, one write
/// of `1`/`0` to it; otherwise one write to each existing policy boost file,
/// or `Unsupported` when there is none. The writes are to be performed in
/// order, stopping at the first that fails, whose error is then the result.
pub open spec fn boost_plan(
    r: Result<Vec<SysfsWrite>, PowerError>,
    enabled: bool,
    intel_present: bool,
    policies: Seq<BoostControl>,
) -> bool {
    if intel_present {
        r matches Ok(w) && writes_to(w@, seq![intel_boost_path()], boost_value(enabled))
    } else if present_boost_files(policies).len() == 0 {
        r matches Err(PowerError::Unsupported(m)) && m@ == no_boost_text()
    } else {
        r matches Ok(w) && writes_to(w@, present_boost_files(policies), boost_value(enabled))
    }
}

fn value_text(enabled: bool) -> (r: String)
    ensures
        r@ == boost_value(enabled),
{
    if enabled {
        String::from_str("1")
    } else {
        String::from_str("0")
    }
}

pub fn set(enabled: bool, intel_present: bool, policies: &Vec<BoostControl>) -> (r: Result<
    Vec<SysfsWrite>,
    PowerError,
>)
    ensures
        boost_plan(r, enabled, intel_present, policies@),
{
    if intel_present {
        let mut w: Vec<SysfsWrite> = Vec::new();
        w.push(SysfsWrite { path: String::from_str(intel_boost()), value: value_text(enabled) });
        return Ok(w);
    }
    let mut w: Vec<SysfsWrite> = Vec::new();
    let mut i: usize = 0;
    assert(policies@.take(0) =~= Seq::<BoostControl>::empty());
    while i < policies.len()
        invariant
            i <= policies@.len(),
            writes_to(w@, present_boost_files(policies@.take(i as int)), boost_value(enabled)),
        decreases policies@.len() - i,
    {
        assert(policies@.take(i + 1).drop_last() =~= policies@.take(i as int));
        assert(policies@.take(i + 1).last() == policies@[i as int]);
        if policies[i].present {
            let ghost before = w@;
            w.push(SysfsWrite { path: policies[i].path.clone(), value: value_text(enabled) });
            assert(w@ == before.push(w@.last()));
        }
        i = i + 1;
    }
    assert(policies@.take(policies@.len() as int) =~= policies@);
    if w.len() == 0 {
        Err(
            PowerError::Unsupported(
                String::from_str(
                    "no boost control found (checked Intel global + AMD per-policy paths)",
                ),
            ),
        )
    } else {
        Ok(w)
    }
}

/// Whether boost is on, from the reading of the Intel switch: `None` when
/// unreadable, otherwise whether it reads `1`.
pub fn is_enabled(reading: &Option<String>) -> (r: Option<bool>)
    ensures
        r == (match *reading {
            Some(t) => Some(t@ == "1"@),
            None => None::<bool>,
        }),
{
    match reading {
        Some(t) => Some(text_eq(t.as_str(), "1")),
        None => None,
    }
}

} // verus!
