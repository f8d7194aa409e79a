//! Calendar text for moments in time.
//!
//! A moment is a count of milliseconds since the Unix epoch, in UTC. Turning
//! one into a date and a time of day is left to `chrono`; what it writes is
//! known here only by name.

use vstd::prelude::*;

verus! {

/// The pattern for a date and a time to the minute.
pub const MINUTE_PATTERN: &'static str = "%Y-%m-%d %H:%M";

/// The pattern for a date and a time to the second.
pub const SECOND_PATTERN: &'static str = "%Y-%m-%d %H:%M:%S";

/// The pattern for a stamp that can stand in a file name.
pub const STAMP_PATTERN: &'static str = "%Y%m%d_%H%M%S";

/// The text that `chrono` writes for the UTC moment `millis` milliseconds
/// after the Unix epoch under a `strftime` pattern; `None` where the moment
/// lies outside the range of its calendar or it cannot write the pattern.
pub uninterp spec fn utc_text(millis: i64, pattern: Seq<char>) -> Option<Seq<char>>;

/// The same text, with nothing in place of a moment that cannot be written.
pub open spec fn utc_text_or_empty(millis: i64, pattern: Seq<char>) -> Seq<char> {
    match utc_text(millis, pattern) {
        Some(text) => text,
        None => Seq::empty(),
    }
}

/// Writes a moment under a pattern. The moment is made by `chrono`'s
/// `DateTime::from_timestamp_millis`, which gives nothing for one out of
/// range; the text by `DateTime::format` and `DelayedFormat::write_to`, which
/// fails on a pattern it cannot write. In both cases the result is `None`.
/// The contract only names the text: the same moment and pattern always
/// give the same.
#[verifier::external_body]
pub(crate) fn write_utc(millis: i64, pattern: &str) -> (text: Option<String>)
    ensures
        utc_text(millis, pattern@) == match text {
            Some(t) => Some(t@),
            None => None::<Seq<char>>,
        },
{
    let moment = chrono::DateTime::from_timestamp_millis(millis)?;
    let mut out = String::new();
    moment.format(pattern).write_to(&mut out).ok()?;
    Some(out)
}

/// The text of a moment under a pattern, empty where it cannot be written.
pub fn utc_string(millis: i64, pattern: &str) -> (text: String)
    ensures
        text@ == utc_text_or_empty(millis, pattern@),
{
    match write_utc(millis, pattern) {
        Some(t) => t,
        None => String::new(),
    }
}

} // verus!
