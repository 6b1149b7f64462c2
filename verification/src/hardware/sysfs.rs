//! Interpreting sysfs attribute values.
//!
//! An attribute is handed in as its *reading*: the file's contents with
//! trailing whitespace removed, or the error met while reading it.
//! Functions that only care whether a value was there take the reading as
//! an `Option` (`None` when the file could not be read).

use crate::errors::PowerError;
use crate::text::{i64_text, parse_i64, parse_u64, u64_text, IntErrorKind};
use vstd::prelude::*;

verus! {

/// A value to be written to a sysfs attribute file.
#[derive(Debug, Clone)]
pub struct SysfsWrite {
    pub path: String,
    pub value: String,
}

/// The message of `core::num::ParseIntError` for each kind.
pub open spec fn int_error_text(k: IntErrorKind) -> Seq<char> {
    match k {
        IntErrorKind::Empty => "cannot parse integer from empty string"@,
        IntErrorKind::InvalidDigit => "invalid digit found in string"@,
        IntErrorKind::PosOverflow => "number too large to fit in target type"@,
        IntErrorKind::NegOverflow => "number too small to fit in target type"@,
    }
}

pub fn int_error_message(k: IntErrorKind) -> (r: &'static str)
    ensures
        r@ == int_error_text(k),
{
    match k {
        IntErrorKind::Empty => "cannot parse integer from empty string",
        IntErrorKind::InvalidDigit => "invalid digit found in string",
        IntErrorKind::PosOverflow => "number too large to fit in target type",
        IntErrorKind::NegOverflow => "number too small to fit in target type",
    }
}

/// `parsing <path> as <ty>: <reason>`.
pub open spec fn parse_failure_text(path: Seq<char>, ty: Seq<char>, k: IntErrorKind) -> Seq<char> {
    "parsing "@ + path + " as "@ + ty + ": "@ + int_error_text(k)
}

fn parse_failure(path: &str, ty: &str, k: IntErrorKind) -> (e: PowerError)
    ensures
        e matches PowerError::Hardware(m) && m@ == parse_failure_text(path@, ty@, k),
{
    let m = String::from_str("parsing ").concat(path).concat(" as ").concat(ty).concat(": ").concat(
        int_error_message(k),
    );
    PowerError::Hardware(m)
}

/// The attribute at `path` as a `u64`: the read error, if reading failed;
/// otherwise the decimal value of the text, or a `Hardware` error naming the
/// path and why the text is not a `u64`.
pub fn read_u64(path: &str, reading: Result<String, PowerError>) -> (r: Result<u64, PowerError>)
    ensures
        match reading {
            Err(e) => r == Err::<u64, PowerError>(e),
            Ok(t) => match u64_text(t@) {
                Ok(v) => r == Ok::<u64, PowerError>(v),
                Err(k) => r matches Err(PowerError::Hardware(m)) && m@ == parse_failure_text(
                    path@,
                    "u64"@,
                    k,
                ),
            },
        },
{
    match reading {
        Err(e) => Err(e),
        Ok(t) => match parse_u64(t.as_str()) {
            Ok(v) => Ok(v),
            Err(k) => Err(parse_failure(path, "u64", k)),
        },
    }
}

/// The attribute at `path` as an `i64`, as `read_u64` does for `u64`.
pub fn read_i64(path: &str, reading: Result<String, PowerError>) -> (r: Result<i64, PowerError>)
    ensures
        match reading {
            Err(e) => r == Err::<i64, PowerError>(e),
            Ok(t) => match i64_text(t@) {
                Ok(v) => r == Ok::<i64, PowerError>(v),
                Err(k) => r matches Err(PowerError::Hardware(m)) && m@ == parse_failure_text(
                    path@,
                    "i64"@,
                    k,
                ),
            },
        },
{
    match reading {
        Err(e) => Err(e),
        Ok(t) => match parse_i64(t.as_str()) {
            Ok(v) => Ok(v),
            Err(k) => Err(parse_failure(path, "i64", k)),
        },
    }
}

/// The value of an optional `u64` attribute: present and decimal, or `None`.
pub open spec fn u64_attr(reading: Option<String>) -> Option<u64> {
    match reading {
        Some(t) => match u64_text(t@) {
            Ok(v) => Some(v),
            Err(_) => None,
        },
        None => None,
    }
}

/// The value of an optional `i64` attribute: present and decimal, or `None`.
pub open spec fn i64_attr(reading: Option<String>) -> Option<i64> {
    match reading {
        Some(t) => match i64_text(t@) {
            Ok(v) => Some(v),
            Err(_) => None,
        },
        None => None,
    }
}

/// Best-effort `u64` read: `None` when the attribute is missing or not a
/// number, which is normal -- coverage varies a lot between vendors.
pub fn read_u64_opt(reading: &Option<String>) -> (r: Option<u64>)
    ensures
        r == u64_attr(*reading),
{
    match reading {
        Some(t) => match parse_u64(t.as_str()) {
            Ok(v) => Some(v),
            Err(_) => None,
        },
        None => None,
    }
}

/// Best-effort `i64` read, as `read_u64_opt`.
pub fn read_i64_opt(reading: &Option<String>) -> (r: Option<i64>)
    ensures
        r == i64_attr(*reading),
{
    match reading {
        Some(t) => match parse_i64(t.as_str()) {
            Ok(v) => Some(v),
            Err(_) => None,
        },
        None => None,
    }
}

/// Best-effort text read: the text, or `None` when reading failed.
pub fn read_trimmed_opt(reading: Result<String, PowerError>) -> (r: Option<String>)
    ensures
        match reading {
            Ok(t) => r == Some(t),
            Err(_) => r is None,
        },
{
    match reading {
        Ok(t) => Some(t),
        Err(_) => None,
    }
}

/// The path of attribute `name` inside the device directory `dir`.
pub open spec fn attr_path(dir: Seq<char>, name: Seq<char>) -> Seq<char> {
    dir + "/"@ + name
}

pub fn join_attr(dir: &str, name: &str) -> (r: String)
    ensures
        r@ == attr_path(dir@, name@),
{
    String::from_str(dir).concat("/").concat(name)
}

} // verus!
