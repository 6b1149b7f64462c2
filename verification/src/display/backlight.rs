//! Raw backlight device access via `/sys/class/backlight/<name>`.

use crate::errors::PowerError;
use crate::hardware::sysfs::{attr_path, join_attr, parse_failure_text, read_u64, SysfsWrite};
use crate::text::{decimal, lemma_decimal_reads_back, to_decimal, u64_text};
use vstd::prelude::*;

verus! {

#[derive(Debug, Clone)]
pub struct BacklightDevice {
    pub id: String,
    pub path: String,
    pub max_brightness: u32,
}

/// An entry of `/sys/class/backlight`: its name, its path, and the reading
/// of its `max_brightness` attribute.
#[derive(Debug)]
pub struct BacklightEntry {
    pub name: String,
    pub path: String,
    pub max_brightness: Result<String, PowerError>,
}

/// The entry's maximum brightness, when its attribute was read and is a
/// `u64`.
pub open spec fn max_value(e: BacklightEntry) -> Option<u64> {
    match e.max_brightness {
        Ok(t) => match u64_text(t@) {
            Ok(v) => Some(v),
            Err(_) => None,
        },
        Err(_) => None,
    }
}

/// `err` is what reading the entry's `max_brightness` failed with: the read
/// error itself, or a `Hardware` error naming the attribute's path and why
/// its text is not a `u64`.
pub open spec fn max_failure(e: BacklightEntry, err: PowerError) -> bool {
    match e.max_brightness {
        Err(x) => err == x,
        Ok(t) => match u64_text(t@) {
            Err(k) => err matches PowerError::Hardware(m) && m@ == parse_failure_text(
                attr_path(e.path@, "max_brightness"@),
                "u64"@,
                k,
            ),
            Ok(_) => false,
        },
    }
}

/// `d` is the device of entry `e` (its maximum truncated to 32 bits).
pub open spec fn device_of(d: BacklightDevice, e: BacklightEntry) -> bool {
    &&& d.id == e.name
    &&& d.path == e.path
    &&& max_value(e) matches Some(m) && d.max_brightness == m as u32
}

/// The raw brightness in a reading of the `brightness` attribute of the
/// device at `dir`: the value truncated to 32 bits, the read error, or a
/// `Hardware` error naming the path and why the text is not a `u64`.
pub open spec fn raw_brightness(dir: Seq<char>, reading: Result<String, PowerError>, r: Result<
    u32,
    PowerError,
>) -> bool {
    match reading {
        Err(e) => r == Err::<u32, PowerError>(e),
        Ok(t) => match u64_text(t@) {
            Ok(v) => r == Ok::<u32, PowerError>(v as u32),
            Err(k) => r matches Err(PowerError::Hardware(m)) && m@ == parse_failure_text(
                attr_path(dir, "brightness"@),
                "u64"@,
                k,
            ),
        },
    }
}

pub open spec fn too_bright_text(value: u32, max: u32) -> Seq<char> {
    "brightness "@ + decimal(value as nat) + " exceeds max_brightness "@ + decimal(max as nat)
}

impl BacklightDevice {
    /// One device per entry, in order; the first entry whose
    /// `max_brightness` cannot be read as a number makes the whole discovery
    /// fail with that error.
    pub fn discover(entries: Vec<BacklightEntry>) -> (r: Result<Vec<BacklightDevice>, PowerError>)
        ensures
            (forall|i: int| 0 <= i < entries@.len() ==> (#[trigger] max_value(entries@[i])) is Some)
                ==> r is Ok,
            (exists|i: int| 0 <= i < entries@.len() && (#[trigger] max_value(entries@[i])) is None)
                ==> r is Err,
            r matches Ok(v) ==> v@.len() == entries@.len() && forall|i: int|
                0 <= i < v@.len() ==> device_of(#[trigger] v@[i], entries@[i]),
            r matches Err(err) ==> exists|k: int|
                0 <= k < entries@.len() && max_failure(entries@[k], err) && forall|j: int|
                    0 <= j < k ==> (#[trigger] max_value(entries@[j])) is Some,
    {
        let ghost given = entries@;
        let mut rest = entries;
        let mut out: Vec<BacklightDevice> = Vec::new();
        while rest.len() > 0
            invariant
                given == entries@,
                out@.len() + rest@.len() == given.len(),
                rest@ == given.skip(out@.len() as int),
                forall|i: int| 0 <= i < out@.len() ==> device_of(#[trigger] out@[i], given[i]),
                forall|i: int| 0 <= i < out@.len() ==> (#[trigger] max_value(given[i])) is Some,
            decreases rest@.len(),
        {
            let e = rest.remove(0);
            let ghost k = out@.len() as int;
            assert(e == given[k]);
            assert(rest@ =~= given.skip(k + 1));
            let max_path = join_attr(e.path.as_str(), "max_brightness");
            let max = match read_u64(max_path.as_str(), e.max_brightness) {
                Ok(v) => v,
                Err(err) => {
                    assert(max_failure(given[k], err));
                    assert(max_value(given[k]) is None);
                    assert(forall|j: int| 0 <= j < k ==> (#[trigger] max_value(given[j])) is Some);
                    assert(0 <= k < given.len() && max_failure(given[k], err) && forall|j: int|
                        0 <= j < k ==> (#[trigger] max_value(given[j])) is Some);
                    return Err(err);
                },
            };
            out.push(BacklightDevice { id: e.name, path: e.path, max_brightness: max as u32 });
            assert(device_of(out@[k], given[k]));
        }
        assert(out@.len() == given.len());
        Ok(out)
    }

    /// The current raw brightness, from the reading of the device's
    /// `brightness` attribute.
    pub fn current_raw(&self, reading: Result<String, PowerError>) -> (r: Result<u32, PowerError>)
        ensures
            raw_brightness(self.path@, reading, r),
    {
        let p = join_attr(self.path.as_str(), "brightness");
        match read_u64(p.as_str(), reading) {
            Ok(v) => Ok(v as u32),
            Err(e) => Err(e),
        }
    }

    /// The write that sets the raw brightness to `value`, or `InvalidParams`
    /// when `value` exceeds the device's maximum.
    pub fn set_raw(&self, value: u32) -> (r: Result<SysfsWrite, PowerError>)
        ensures
            value > self.max_brightness ==> (r matches Err(PowerError::InvalidParams(m)) && m@
                == too_bright_text(value, self.max_brightness)),
            value <= self.max_brightness ==> (r matches Ok(w) && w.path@ == attr_path(
                self.path@,
                "brightness"@,
            ) && w.value@ == decimal(value as nat)),
    {
        if value > self.max_brightness {
            let m = String::from_str("brightness ").concat(to_decimal(value as u64).as_str()).concat(
                " exceeds max_brightness ",
            ).concat(to_decimal(self.max_brightness as u64).as_str());
            return Err(PowerError::InvalidParams(m));
        }
        Ok(
            SysfsWrite {
                path: join_attr(self.path.as_str(), "brightness"),
                value: to_decimal(value as u64),
            },
        )
    }
}

/// Setting a raw brightness and reading it back gives the value that was
/// set: when the text that `set_raw` writes is read back from the
/// `brightness` attribute, `current_raw` yields the same value.
pub proof fn lemma_set_raw_reads_back(
    dir: Seq<char>,
    value: u32,
    written: String,
    r: Result<u32, PowerError>,
)
    requires
        written@ == decimal(value as nat),
        raw_brightness(dir, Ok(written), r),
    ensures
        r == Ok::<u32, PowerError>(value),
{
    lemma_decimal_reads_back(value as u64);
}

} // verus!
