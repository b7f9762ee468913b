//! The local time as text, which the library takes from chrono.

use vstd::prelude::*;

verus! {

/// The pattern of the time stamp that opens a record: date, time of day and
/// microseconds in square brackets, then one space.
pub const STAMP_PATTERN: &'static str = "[%F %H:%M:%S%.6f] ";

/// The pattern of a dated log file's place below the log directory: one
/// directory level each for year, month and day, then a file name made of
/// date and time.
pub const LOG_NAME_PATTERN: &'static str = "%Y/%m/%d/%F_%H%M%S.%f.log";

/// The patterns that this library formats the time with. Each is made of
/// literal text and of specifiers that chrono's `strftime` table lists.
pub open spec fn known_pattern(pattern: Seq<char>) -> bool {
    pattern == STAMP_PATTERN@ || pattern == LOG_NAME_PATTERN@
}

/// The local time of the call, formatted by `pattern`: chrono's
/// `Local::now()`, `DateTime::format` and `to_string` on what it returns.
///
/// Nothing is claimed of the text, which differs from call to call. The
/// precondition keeps to patterns that chrono accepts: formatting panics on
/// a specifier that it does not know.
#[verifier::external_body]
pub(crate) fn local_time_text(pattern: &str) -> (text: String)
    requires
        known_pattern(pattern@),
{
    chrono::Local::now().format(pattern).to_string()
}

} // verus!
