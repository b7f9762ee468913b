//! The finished line as a log record.

use vstd::prelude::*;
use vstd::string::StringExecFns;
use crate::action::Action;
use crate::clock::{local_time_text, STAMP_PATTERN};
use crate::interp::reconstruct;
use crate::model::line_text;

verus! {

/// The text of a record: the time stamp, the line, and one newline.
pub open spec fn record_text(stamp: Seq<char>, line: Seq<char>) -> Seq<char> {
    (stamp + line).push('\n')
}

/// Puts a record together from its time stamp and its line.
pub fn format_record(stamp: &str, line: &str) -> (record: String)
    ensures
        record@ == record_text(stamp@, line@),
{
    let mut record = String::from_str(stamp);
    record.append(line);
    record.push('\n');
    record
}

/// Interprets the actions of one input line on a fresh row of `term_width`
/// blank cells and returns the record to be logged: the local time at which
/// the row was finished, the row's text without its trailing blanks, and a
/// newline.
///
/// The time stamp is whatever the clock gave; the rest of the record is
/// determined by the actions and the width.
pub fn do_actions(actions: Vec<Action>, term_width: usize) -> (record: String)
    ensures
        exists|stamp: Seq<char>| record@ == record_text(stamp, line_text(actions@, term_width as nat)),
{
    let line = reconstruct(&actions, term_width);
    let stamp = local_time_text(STAMP_PATTERN);
    let record = format_record(stamp.as_str(), line.as_str());
    assert(record@ == record_text(stamp@, line_text(actions@, term_width as nat)));
    record
}

} // verus!
