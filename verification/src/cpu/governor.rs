//! `scaling_governor` reads and writes across every CPU.

use super::boost::writes_to;
use crate::errors::PowerError;
use crate::hardware::sysfs::SysfsWrite;
use crate::text::{is_digit, split_words, words};
use vstd::prelude::*;

verus! {

/// A directory name `cpu<N>`: `cpu` followed by one or more ASCII digits
/// (which excludes `cpufreq`, `cpuidle`, ...).
pub open spec fn is_numbered_cpu_name(name: Seq<char>) -> bool {
    &&& name.len() > 3
    &&& name.take(3) == "cpu"@
    &&& forall|i: int| 3 <= i < name.len() ==> is_digit(#[trigger] name[i])
}

pub fn is_numbered_cpu_dir(name: &str) -> (r: bool)
    ensures
        r == is_numbered_cpu_name(name@),
{
    proof {
        reveal_strlit("cpu");
    }
    let n = name.unicode_len();
    if n <= 3 {
        return false;
    }
    let c0 = name.get_char(0) as u32;
    let c1 = name.get_char(1) as u32;
    let c2 = name.get_char(2) as u32;
    if !(c0 == 99 && c1 == 112 && c2 == 117) {
        assert(name@.take(3) != "cpu"@ ) by {
            if name@.take(3) == "cpu"@ {
                assert(name@.take(3)[0] == 'c');
                assert(name@.take(3)[1] == 'p');
                assert(name@.take(3)[2] == 'u');
            }
        }
        return false;
    }
    assert(name@.take(3) =~= "cpu"@);
    let mut i: usize = 3;
    while i < n
        invariant
            n == name@.len(),
            3 <= i <= n,
            forall|k: int| 3 <= k < i ==> is_digit(#[trigger] name@[k]),
        decreases n - i,
    {
        let c = name.get_char(i) as u32;
        if c < 48 || c > 57 {
            return false;
        }
        i = i + 1;
    }
    true
}

/// An entry `cpu*` of `/sys/devices/system/cpu`: its name, the path of its
/// `cpufreq/scaling_governor` file, and whether that file exists.
#[derive(Debug, Clone)]
pub struct CpuDir {
    pub name: String,
    pub governor_path: String,
    pub governor_present: bool,
}

/// The governor files to write: those of numbered CPU directories whose
/// file exists (an offlined core has none), in order.
pub open spec fn governor_targets(cpus: Seq<CpuDir>) -> Seq<Seq<char>>
    decreases cpus.len(),
{
    if cpus.len() == 0 {
        Seq::empty()
    } else if is_numbered_cpu_name(cpus.last().name@) && cpus.last().governor_present {
        governor_targets(cpus.drop_last()).push(cpus.last().governor_path@)
    } else {
        governor_targets(cpus.drop_last())
    }
}

/// `writes` sets governor `name` on every target CPU, in order.
pub open spec fn governor_plan(writes: Seq<SysfsWrite>, name: Seq<char>, cpus: Seq<CpuDir>) -> bool {
    writes_to(writes, governor_targets(cpus), name)
}

/// The writes that set `governor` on every CPU that exposes the control
/// file. Every write is to be attempted; `write_outcome` then turns their
/// results into the outcome.
pub fn set_all(governor: &str, cpus: &Vec<CpuDir>) -> (r: Vec<SysfsWrite>)
    ensures
        governor_plan(r@, governor@, cpus@),
{
    let mut w: Vec<SysfsWrite> = Vec::new();
    let mut i: usize = 0;
    assert(cpus@.take(0) =~= Seq::<CpuDir>::empty());
    while i < cpus.len()
        invariant
            i <= cpus@.len(),
            writes_to(w@, governor_targets(cpus@.take(i as int)), governor@),
        decreases cpus@.len() - i,
    {
        assert(cpus@.take(i + 1).drop_last() =~= cpus@.take(i as int));
        assert(cpus@.take(i + 1).last() == cpus@[i as int]);
        if is_numbered_cpu_dir(cpus[i].name.as_str()) && cpus[i].governor_present {
            let ghost before = w@;
            w.push(
                SysfsWrite {
                    path: cpus[i].governor_path.clone(),
                    value: String::from_str(governor),
                },
            );
            assert(w@ == before.push(w@.last()));
        }
        i = i + 1;
    }
    assert(cpus@.take(cpus@.len() as int) =~= cpus@);
    w
}

pub open spec fn no_governor_text() -> Seq<char> {
    "no cpufreq governor control found"@
}

/// The outcome of setting the governor, from the results of the writes in
/// the order they were made: `Ok` if any write succeeded; otherwise the
/// error of the last write, or `Unsupported` when there was nothing to
/// write.
pub fn write_outcome(results: Vec<Result<(), PowerError>>) -> (r: Result<(), PowerError>)
    ensures
        (exists|i: int| 0 <= i < results@.len() && results@[i] is Ok) ==> r is Ok,
        (forall|i: int| 0 <= i < results@.len() ==> results@[i] is Err) && results@.len() > 0
            ==> r == results@.last(),
        results@.len() == 0 ==> (r matches Err(PowerError::Unsupported(m)) && m@
            == no_governor_text()),
{
    let mut pending = results;
    let mut i: usize = 0;
    while i < pending.len()
        invariant
            pending@ == results@,
            i <= pending@.len(),
            forall|k: int| 0 <= k < i ==> pending@[k] is Err,
        decreases pending@.len() - i,
    {
        let ok = match &pending[i] {
            Ok(()) => true,
            Err(_) => false,
        };
        if ok {
            assert(results@[i as int] is Ok);
            return Ok(());
        }
        i = i + 1;
    }
    match pending.pop() {
        Some(last) => last,
        None => Err(PowerError::Unsupported(String::from_str("no cpufreq governor control found"))),
    }
}

/// The governors cpu0 offers, from the reading of its
/// `scaling_available_governors` attribute: its words, or none when
/// unreadable.
pub fn available(reading: &Option<String>) -> (r: Vec<String>)
    ensures
        r@.map_values(|w: String| w@) == (match *reading {
            Some(t) => words(t@),
            None => Seq::<Seq<char>>::empty(),
        }),
{
    match reading {
        Some(t) => split_words(t.as_str()),
        None => {
            let v: Vec<String> = Vec::new();
            assert(v@.map_values(|w: String| w@) =~= Seq::<Seq<char>>::empty());
            v
        },
    }
}

} // verus!
