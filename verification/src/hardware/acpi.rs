//! ACPI-specific helpers. Most ACPI information reaches Linux userspace
//! through sysfs; only the sleep-state list and the legacy
//! `/proc/acpi/button/lid/*/state` text are interpreted here.

use crate::errors::PowerError;
use crate::text::{contains, contains_text, split_words, words};
use vstd::prelude::*;

verus! {

/// The sleep states the kernel offers, from the reading of
/// `/sys/power/state`: its whitespace-separated words, or the read error.
pub fn acpi_sleep_states(reading: Result<String, PowerError>) -> (r: Result<Vec<String>, PowerError>)
    ensures
        match reading {
            Err(e) => r == Err::<Vec<String>, PowerError>(e),
            Ok(t) => r matches Ok(v) && v@.map_values(|w: String| w@) == words(t@),
        },
{
    match reading {
        Err(e) => Err(e),
        Ok(t) => Ok(split_words(t.as_str())),
    }
}

/// The text with every character replaced by its Unicode lowercase mapping
/// (what `str::to_lowercase` returns).
pub uninterp spec fn lowercased(text: Seq<char>) -> Seq<char>;

/// Calls `str::to_lowercase`. Claimed: the result is `lowercased(text)`;
/// the Unicode case tables themselves are not stated.
#[verifier::external_body]
fn to_lowercase(text: &str) -> (r: String)
    ensures
        r@ == lowercased(text@),
{
    text.to_lowercase()
}

/// Whether a legacy lid `state` text (e.g. `state:      closed`) says the
/// lid is closed: it mentions `closed`, in any letter case.
pub fn lid_closed(state: &str) -> (r: bool)
    ensures
        r == contains_text(lowercased(state@), "closed"@),
{
    let lower = to_lowercase(state);
    contains(lower.as_str(), "closed")
}

} // verus!
