//! Identifiers of store instances.
//!
//! A store takes its identifier from the moment at which it is made: the
//! distance between that moment and the Unix epoch, written out in seconds
//! and nanoseconds behind the crate's version.

use crate::text::decimal;
use crate::text::decimal_text;
use crate::text::fixed_width;
use crate::text::fixed_width_text;
use crate::text::lemma_decimal_text_is_injective;
use crate::text::lemma_fixed_width_text_is_injective;
use crate::text::lemma_fixed_width_text_len;
use crate::text::power_of_ten;
use std::time::Duration;
use std::time::SystemTime;
use std::time::SystemTimeError;
use vstd::prelude::*;
use vstd::string::StringExecFns;

verus! {

/// `std::time::SystemTime`, a reading of the system clock. Nothing is known
/// of what a value holds.
#[verifier::external_type_specification]
#[verifier::external_body]
pub struct ExSystemTime(SystemTime);

/// `std::time::SystemTimeError`, the failure of `duration_since` on a moment
/// that lies before the one it is measured from.
#[verifier::external_type_specification]
#[verifier::external_body]
pub struct ExSystemTimeError(SystemTimeError);

/// `SystemTime::now`: the clock's present reading. Nothing is promised of
/// it.
pub assume_specification[ SystemTime::now ]() -> SystemTime;

/// `SystemTime::duration_since`, measured from `UNIX_EPOCH`. It fails where
/// the moment lies before the epoch; nothing more is promised.
#[verifier::external_body]
fn since_epoch(moment: &SystemTime) -> Result<Duration, SystemTimeError> {
    moment.duration_since(std::time::UNIX_EPOCH)
}

/// `SystemTimeError::duration`: how far the moment lies before the one it
/// was measured from. Nothing is promised of its length.
pub assume_specification[ SystemTimeError::duration ](error: &SystemTimeError) -> Duration;

/// `Duration::as_secs`: the whole seconds of a duration. Nothing is promised
/// of their number.
pub assume_specification[ Duration::as_secs ](duration: &Duration) -> u64;

/// `Duration::subsec_nanos`: the part of a duration below one second, in
/// nanoseconds. The standard library documents that it is less than one
/// billion.
pub assume_specification[ Duration::subsec_nanos ](duration: &Duration) -> (nanos: u32)
    ensures
        nanos < 1_000_000_000,
;

/// The version of this crate.
pub const VERSION: &'static str = "0.2.0";

/// The identifier of a store made `seconds` and `nanos` away from the Unix
/// epoch.
pub open spec fn instance_id_text(seconds: u64, nanos: u32) -> Seq<char> {
    "Crate version "@ + VERSION@ + ", Instantiated at "@ + decimal_text(seconds as nat) + "."@
        + fixed_width_text(nanos as nat, 9)
}

/// The text is the identifier of a store made at some moment.
pub open spec fn is_instance_id(id: Seq<char>) -> bool {
    exists|seconds: u64, nanos: u32|
        nanos < 1_000_000_000 && id == #[trigger] instance_id_text(seconds, nanos)
}

/// Stores made at different distances from the Unix epoch have different
/// identifiers.
pub proof fn lemma_moments_have_their_own_ids(
    seconds: u64,
    nanos: u32,
    other_seconds: u64,
    other_nanos: u32,
)
    requires
        nanos < 1_000_000_000,
        other_nanos < 1_000_000_000,
        instance_id_text(seconds, nanos) == instance_id_text(other_seconds, other_nanos),
    ensures
        seconds == other_seconds,
        nanos == other_nanos,
{
    let head = "Crate version "@ + VERSION@ + ", Instantiated at "@;
    let whole = decimal_text(seconds as nat);
    let other_whole = decimal_text(other_seconds as nat);
    let part = fixed_width_text(nanos as nat, 9);
    let other_part = fixed_width_text(other_nanos as nat, 9);
    let id = head + whole + "."@ + part;
    let other_id = head + other_whole + "."@ + other_part;
    lemma_fixed_width_text_len(nanos as nat, 9);
    lemma_fixed_width_text_len(other_nanos as nat, 9);
    reveal_strlit(".");
    assert("."@.len() == 1);
    assert(id.len() == head.len() + whole.len() + 1 + 9);
    assert(other_id.len() == head.len() + other_whole.len() + 1 + 9);
    assert(whole.len() == other_whole.len());
    let start: int = head.len() as int;
    let dot: int = start + whole.len();
    assert(whole =~= id.subrange(start, dot));
    assert(other_whole =~= other_id.subrange(start, dot));
    assert(part =~= id.subrange(dot + 1, id.len() as int));
    assert(other_part =~= other_id.subrange(dot + 1, id.len() as int));
    lemma_decimal_text_is_injective(seconds as nat, other_seconds as nat);
    assert(power_of_ten(9) == 1_000_000_000) by {
        reveal_with_fuel(power_of_ten, 10);
    }
    lemma_fixed_width_text_is_injective(nanos as nat, other_nanos as nat, 9);
}

/// Writes the identifier of a store made `seconds` and `nanos` away from the
/// Unix epoch.
pub fn instance_id(seconds: u64, nanos: u32) -> (id: String)
    ensures
        id@ == instance_id_text(seconds, nanos),
{
    let mut id = String::from_str("Crate version ");
    id.append(VERSION);
    id.append(", Instantiated at ");
    id.append(decimal(seconds).as_str());
    id.append(".");
    id.append(fixed_width(nanos as u64, 9).as_str());
    id
}

/// The identifier of a store that is made now. Two calls give two
/// identifiers unless the clock shows the same nanosecond to both.
pub fn fresh_instance_id() -> (id: String)
    ensures
        is_instance_id(id@),
{
    let now = SystemTime::now();
    let distance = match since_epoch(&now) {
        Ok(after) => after,
        Err(before) => before.duration(),
    };
    instance_id(distance.as_secs(), distance.subsec_nanos())
}

} // verus!
