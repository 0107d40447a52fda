//! What the library takes on trust: the few functions of the standard
//! library and of `unicode-width` that it calls and cannot look into. Each
//! contract here is believed, not proved.

use std::string::FromUtf8Error;
use std::time::{Duration, Instant, SystemTime, SystemTimeError};
use unicode_width::UnicodeWidthStr;
use vstd::prelude::*;
use vstd::utf8::{decode_utf8, valid_utf8};

verus! {

/// `std::time::Instant`, a reading of the monotonic clock. Nothing of what
/// it holds is visible to the proofs.
#[verifier::external_type_specification]
#[verifier::external_body]
pub struct ExInstant(Instant);

/// `std::string::FromUtf8Error`, what `String::from_utf8` returns for bytes
/// that are no UTF-8.
#[verifier::external_type_specification]
#[verifier::external_body]
pub struct ExFromUtf8Error(FromUtf8Error);

/// `std::time::SystemTime`, a reading of the wall clock. Nothing of what it
/// holds is visible to the proofs.
#[verifier::external_type_specification]
#[verifier::external_body]
pub struct ExSystemTime(SystemTime);

/// `std::time::SystemTimeError`, what `SystemTime::duration_since` returns
/// when the second instant is the later one.
#[verifier::external_type_specification]
#[verifier::external_body]
pub struct ExSystemTimeError(SystemTimeError);

/// `std::time::UNIX_EPOCH`, the instant from which the wall clock counts.
/// Nothing is said of it.
#[verifier::external_body]
pub(crate) fn unix_epoch() -> SystemTime {
    std::time::UNIX_EPOCH
}

/// `SystemTime::now`: reads the wall clock. The reading differs from call to
/// call, so nothing is said of it.
pub assume_specification[ SystemTime::now ]() -> SystemTime
;

/// `SystemTime::duration_since`: how much later than `earlier` the instant
/// is, or an error that holds how much earlier it is. Neither instant is
/// visible to the proofs, so nothing is said of the result.
pub assume_specification[ SystemTime::duration_since ](
    time: &SystemTime,
    earlier: SystemTime,
) -> Result<Duration, SystemTimeError>
;

/// `SystemTimeError::duration`: how much earlier the instant was than the
/// one it was held against. Nothing is said of it.
pub assume_specification[ SystemTimeError::duration ](error: &SystemTimeError) -> Duration
;

/// `Duration::subsec_nanos`: the part of a duration below the whole second,
/// in nanoseconds. What a duration holds is not visible to the proofs, so
/// nothing is said of the number.
pub assume_specification[ Duration::subsec_nanos ](duration: &Duration) -> u32
;

/// `Instant::now`: reads the monotonic clock. The reading differs from call
/// to call, so nothing is said of it.
pub assume_specification[ Instant::now ]() -> Instant
;

/// `Instant::elapsed`: the time that has passed since the instant was
/// taken. It depends on the clock, so nothing is said of it.
pub assume_specification[ Instant::elapsed ](start: &Instant) -> Duration
;

/// `Duration::as_secs`: the whole seconds of a duration. What a duration
/// holds is not visible to the proofs, so nothing is said of the number.
pub assume_specification[ Duration::as_secs ](duration: &Duration) -> u64
;

/// `String::from_utf8`: succeeds exactly on bytes that are valid UTF-8, and
/// the text is then what the bytes decode to.
pub assume_specification[ String::from_utf8 ](bytes: Vec<u8>) -> (decoded: Result<
    String,
    FromUtf8Error,
>)
    ensures
        decoded is Ok <==> valid_utf8(bytes@),
        decoded matches Ok(text) ==> text@ == decode_utf8(bytes@),
;

/// The text `text` with every character turned to lower case, as the
/// standard library does it.
pub uninterp spec fn lowercase(text: Seq<char>) -> Seq<char>;

/// `str::to_lowercase`. Its result follows the Unicode case tables and
/// depends on the characters of the text alone, so the contract gives it
/// the name `lowercase` and says no more of it.
pub assume_specification[ str::to_lowercase ](text: &str) -> (lower: String)
    ensures
        lower@ == lowercase(text@),
;

/// The number of terminal columns that `text` takes up, as `unicode-width`
/// counts them.
pub uninterp spec fn display_width(text: Seq<char>) -> usize;

/// `UnicodeWidthStr::width` of `unicode-width`. The width follows from the
/// crate's tables of character widths and from its rules for sequences that
/// are drawn as one, and from the characters of the text alone; the contract
/// gives it the name `display_width` and says no more of it.
#[verifier::external_body]
pub(crate) fn str_width(text: &str) -> (width: usize)
    ensures
        width == display_width(text@),
{
    UnicodeWidthStr::width(text)
}

} // verus!
