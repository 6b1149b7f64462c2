//! CPU power management: governor, boost/turbo, frequency and topology.

pub mod boost;
pub mod cores;
pub mod frequency;
pub mod governor;
pub mod topology;

use crate::errors::PowerError;
use crate::hardware::sysfs::SysfsWrite;
use boost::{boost_plan, BoostControl};
use governor::{governor_plan, CpuDir};
use vstd::prelude::*;

verus! {

/// Thin facade used when applying a profile switch.
pub struct CpuController {}

impl CpuController {
    pub fn new() -> Self {
        CpuController {  }
    }

    /// The writes that set governor `name` on every CPU (see
    /// `governor::set_all`).
    pub fn apply_governor(&self, name: &str, cpus: &Vec<CpuDir>) -> (r: Vec<SysfsWrite>)
        ensures
            governor_plan(r@, name@, cpus@),
    {
        governor::set_all(name, cpus)
    }

    /// The writes that switch boost on or off (see `boost::set`).
    pub fn set_boost(&self, enabled: bool, intel_present: bool, policies: &Vec<BoostControl>) -> (r:
        Result<Vec<SysfsWrite>, PowerError>)
        ensures
            boost_plan(r, enabled, intel_present, policies@),
    {
        boost::set(enabled, intel_present, policies)
    }
}

impl Default for CpuController {
    fn default() -> Self {
        Self::new()
    }
}

} // verus!
