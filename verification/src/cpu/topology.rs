//! Basic core/package topology.

use crate::hardware::sysfs::{read_u64_opt, u64_attr};
use vstd::prelude::*;

verus! {

#[derive(Debug, Clone)]
pub struct CoreTopology {
    pub core_id: Option<u32>,
    pub physical_package_id: Option<u32>,
}

/// The low 32 bits of an optional attribute value.
pub open spec fn low_u32(v: Option<u64>) -> Option<u32> {
    match v {
        Some(x) => Some(x as u32),
        None => None,
    }
}

fn truncate(v: Option<u64>) -> (r: Option<u32>)
    ensures
        r == low_u32(v),
{
    match v {
        Some(x) => Some(x as u32),
        None => None,
    }
}

/// One CPU's topology from the readings of its `topology/core_id` and
/// `topology/physical_package_id` attributes.
pub fn read(core_id: &Option<String>, physical_package_id: &Option<String>) -> (r: CoreTopology)
    ensures
        r.core_id == low_u32(u64_attr(*core_id)),
        r.physical_package_id == low_u32(u64_attr(*physical_package_id)),
{
    CoreTopology {
        core_id: truncate(read_u64_opt(core_id)),
        physical_package_id: truncate(read_u64_opt(physical_package_id)),
    }
}

} // verus!
