//! Calendar time, read and written by the `chrono` crate.

use vstd::prelude::*;
use std::fmt::Write;
use crate::text::option_text;

verus! {

/// The text that `chrono` writes for the moment `seconds` and `nanos` after
/// the Unix epoch, seen `offset` seconds east of Greenwich, under the
/// `strftime` pattern `pattern`. There is none where the moment or the
/// offset lies outside what `chrono` represents, or the pattern is not one.
pub uninterp spec fn clock_text(seconds: i64, nanos: u32, offset: i32, pattern: Seq<char>)
    -> Option<Seq<char>>;

/// `DateTime::from_timestamp`, `FixedOffset::east_opt`, then
/// `DateTime::format`: writes a moment as local calendar time at a fixed
/// offset. No time zone data and no locale are read, so the text depends on
/// the arguments alone.
#[verifier::external_body]
pub(crate) fn format_clock(seconds: i64, nanos: u32, offset: i32, pattern: &str) -> (r: Option<
    String,
>)
    ensures
        option_text(r) == clock_text(seconds, nanos, offset, pattern@),
{
    let utc = chrono::DateTime::from_timestamp(seconds, nanos)?;
    let zone = chrono::FixedOffset::east_opt(offset)?;
    let mut text = String::new();
    write!(text, "{}", utc.with_timezone(&zone).format(pattern)).ok()?;
    Some(text)
}

/// `Utc::now()`, read through `timestamp` and `timestamp_subsec_nanos`: the
/// machine's clock, as seconds since the Unix epoch and the nanoseconds
/// within the second. Nothing is claimed of the result.
#[verifier::external_body]
pub(crate) fn utc_now() -> (i64, u32) {
    let now = chrono::Utc::now();
    (now.timestamp(), now.timestamp_subsec_nanos())
}

} // verus!
