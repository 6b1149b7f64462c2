//! Online/offline core accounting.

use crate::text::{is_minus, parse_u32, trim, trimmed, u32_text};
use crate::text::text_eq;
use vstd::prelude::*;

verus! {

/// Position of the first `-` in `t`, if any.
pub open spec fn first_dash(t: Seq<char>) -> Option<int> {
    if exists|k: int| 0 <= k < t.len() && is_minus(t[k]) && forall|j: int| 0 <= j < k ==> !is_minus(#[trigger] t[j]) {
        Some(choose|k: int| 0 <= k < t.len() && is_minus(t[k]) && forall|j: int| 0 <= j < k ==> !is_minus(#[trigger] t[j]))
    } else {
        None
    }
}

/// The two numbers of a range `lo-hi` (whitespace around it ignored): the
/// text before the first `-` and the text after it, each a `u32`.
pub open spec fn range_bounds(s: Seq<char>) -> Option<(u32, u32)> {
    let t = trimmed(s);
    match first_dash(t) {
        None => None,
        Some(k) => match (u32_text(t.take(k)), u32_text(t.skip(k + 1))) {
            (Ok(lo), Ok(hi)) => Some((lo, hi)),
            _ => None,
        },
    }
}

/// The number of CPUs a range `lo-hi` spans: `hi - lo + 1`, or `None` when
/// the text is no such range or `hi < lo`.
pub open spec fn range_count(s: Seq<char>) -> Option<u32> {
    match range_bounds(s) {
        Some((lo, hi)) => if hi >= lo {
            Some((hi - lo + 1) as u32)
        } else {
            None
        },
        None => None,
    }
}

/// The range that spans more CPUs than a `u32` counts.
pub open spec fn is_full_range(s: Seq<char>) -> bool {
    range_bounds(s) == Some((0u32, u32::MAX))
}

fn dash_index(t: &str) -> (r: Option<usize>)
    ensures
        match r {
            Some(k) => first_dash(t@) == Some(k as int) && k < t@.len(),
            None => first_dash(t@) is None,
        },
{
    let n = t.unicode_len();
    let mut i: usize = 0;
    while i < n
        invariant
            n == t@.len(),
            i <= n,
            forall|j: int| 0 <= j < i ==> !is_minus(#[trigger] t@[j]),
        decreases n - i,
    {
        if (t.get_char(i) as u32) == 45 {
            let ghost k = choose|k: int|
                0 <= k < t@.len() && is_minus(t@[k]) && forall|j: int|
                    0 <= j < k ==> !is_minus(#[trigger] t@[j]);
            assert(0 <= i < t@.len() && is_minus(t@[i as int]) && forall|j: int|
                0 <= j < i ==> !is_minus(#[trigger] t@[j]));
            proof {
                if k < i {
                    assert(!is_minus(t@[k]));
                } else if k > i {
                    assert(!is_minus(t@[i as int]));
                }
            }
            return Some(i);
        }
        i = i + 1;
    }
    None
}

fn bounds(s: &str) -> (r: Option<(u32, u32)>)
    ensures
        r == range_bounds(s@),
{
    let t = trim(s);
    match dash_index(t) {
        None => None,
        Some(k) => {
            let n = t.unicode_len();
            let lo_text = t.substring_char(0, k);
            let hi_text = t.substring_char(k + 1, n);
            assert(lo_text@ =~= t@.take(k as int));
            assert(hi_text@ =~= t@.skip(k + 1));
            match (parse_u32(lo_text), parse_u32(hi_text)) {
                (Ok(lo), Ok(hi)) => Some((lo, hi)),
                _ => None,
            }
        },
    }
}

/// Parses a CPU range such as the kernel's `present` list (`0-7`) into a
/// count.
pub fn parse_range_count(s: &str) -> (r: Option<u32>)
    requires
        !is_full_range(s@),
    ensures
        r == range_count(s@),
{
    match bounds(s) {
        Some((lo, hi)) => {
            if hi >= lo {
                Some(hi - lo + 1)
            } else {
                None
            }
        },
        None => None,
    }
}

/// The number of present CPUs from the reading of
/// `/sys/devices/system/cpu/present`. Falls back to 1 if unreadable or
/// unparseable (a range too wide to count included) rather than panicking.
pub fn present_count(reading: &Option<String>) -> (r: u32)
    ensures
        r == (match *reading {
            Some(t) => if is_full_range(t@) {
                1
            } else {
                match range_count(t@) {
                    Some(c) => c,
                    None => 1,
                }
            },
            None => 1,
        }),
{
    match reading {
        Some(t) => {
            match bounds(t.as_str()) {
                Some((lo, hi)) => {
                    if lo == 0 && hi == u32::MAX {
                        1
                    } else {
                        match parse_range_count(t.as_str()) {
                            Some(c) => c,
                            None => 1,
                        }
                    }
                },
                None => 1,
            }
        },
        None => 1,
    }
}

/// cpu0 has no `online` control file on most kernels (it can't be
/// offlined), so it always reports online; any other CPU is online unless
/// its `online` attribute reads something other than `1`.
pub fn is_online(cpu_index: u32, reading: &Option<String>) -> (r: bool)
    ensures
        r == (cpu_index == 0 || match *reading {
            Some(t) => t@ == "1"@,
            None => true,
        }),
{
    if cpu_index == 0 {
        return true;
    }
    match reading {
        Some(t) => text_eq(t.as_str(), "1"),
        None => true,
    }
}

} // verus!
