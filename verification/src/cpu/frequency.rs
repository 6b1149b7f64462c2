//! Per-CPU frequency introspection (read-only; governor.rs owns writes).

use crate::hardware::sysfs::{read_u64_opt, u64_attr};
use vstd::prelude::*;

verus! {

#[derive(Debug, Clone)]
pub struct CpuFrequency {
    pub current_khz: Option<u64>,
    pub min_khz: Option<u64>,
    pub max_khz: Option<u64>,
}

/// One CPU's frequencies from the readings of its `scaling_cur_freq`,
/// `cpuinfo_min_freq` and `cpuinfo_max_freq` attributes.
pub fn read(current: &Option<String>, min: &Option<String>, max: &Option<String>) -> (r: CpuFrequency)
    ensures
        r.current_khz == u64_attr(*current),
        r.min_khz == u64_attr(*min),
        r.max_khz == u64_attr(*max),
{
    CpuFrequency {
        current_khz: read_u64_opt(current),
        min_khz: read_u64_opt(min),
        max_khz: read_u64_opt(max),
    }
}

} // verus!
