//! Points in time as text, as the `chrono` crate writes them.

use std::fmt::Write;
use vstd::prelude::*;

verus! {

/// The point in time `timestamp` seconds after the start of 1970 (UTC), as
/// a clock `offset` seconds east of UTC shows it, written after the
/// `strftime` pattern `format`; `None` where the timestamp or the offset is
/// out of range or the pattern cannot be written.
pub uninterp spec fn local_time_text(timestamp: int, offset: int, format: Seq<char>) -> Option<
    Seq<char>,
>;

/// Builds the time with `chrono::DateTime::from_timestamp`, the zone with
/// `chrono::FixedOffset::east_opt`, moves the time there with
/// `DateTime::with_timezone` and writes it with `DateTime::format`. The
/// contract gives the text its name and adds what `east_opt` shows: an offset
/// of a day or more, east or west, gives nothing.
#[verifier::external_body]
pub(crate) fn format_timestamp(timestamp: i64, offset: i32, format: &str) -> (r: Option<String>)
    ensures
        match r {
            Some(text) => local_time_text(timestamp as int, offset as int, format@) == Some(text@)
                && -86_400 < offset < 86_400,
            None => local_time_text(timestamp as int, offset as int, format@) is None,
        },
{
    let utc = chrono::DateTime::from_timestamp(timestamp, 0)?;
    let zone = chrono::FixedOffset::east_opt(offset)?;
    let mut out = String::new();
    write!(out, "{}", utc.with_timezone(&zone).format(format)).ok()?;
    Some(out)
}

} // verus!
