//! Where a session's log file goes: below `log` in the home directory, in a
//! directory per day.

use vstd::prelude::*;
use vstd::string::{StrSliceExecFns, StringExecFns};
use crate::clock::{local_time_text, LOG_NAME_PATTERN};

verus! {

/// The directory to make and the file to create in it.
pub struct LogLocation {
    pub dir: String,
    pub file: String,
}

/// The directory part of a path: the path up to and including its last
/// slash, or nothing where it has none.
pub open spec fn dir_part(path: Seq<char>) -> Seq<char>
    decreases path.len(),
{
    if path.len() == 0 || path.last() == '/' {
        path
    } else {
        dir_part(path.drop_last())
    }
}

/// The path of the log directory below `home`, with a slash at its end.
pub open spec fn log_root(home: Seq<char>) -> Seq<char> {
    home + "/log/"@
}

/// The place of a log file, given the home directory and the file's dated
/// name below the log directory.
pub fn log_location(home: &str, dated_name: &str) -> (location: LogLocation)
    ensures
        location.file@ == log_root(home@) + dated_name@,
        location.dir@ == log_root(home@) + dir_part(dated_name@),
{
    let mut file = String::from_str(home);
    file.append("/log/");
    let mut dir = file.clone();
    file.append(dated_name);

    let mut end: usize = dated_name.unicode_len();
    assert(dated_name@.take(end as int) =~= dated_name@);
    while end > 0 && dated_name.get_char(end - 1) != '/'
        invariant
            end <= dated_name@.len(),
            dir_part(dated_name@) == dir_part(dated_name@.take(end as int)),
        decreases end,
    {
        assert(dated_name@.take(end as int).drop_last() =~= dated_name@.take(end - 1));
        end -= 1;
    }
    assert(dated_name@.take(end as int) =~= dated_name@.subrange(0, end as int));
    dir.append(dated_name.substring_char(0, end));
    LogLocation { dir, file }
}

/// The place of a log file for a session that starts now: below the log
/// directory of `home`, a directory for the local date and in it a file
/// named by the local date and time.
///
/// The dated name is whatever the clock gave; file and directory are
/// determined by it and by `home`.
pub fn logfile_location(home: &str) -> (location: LogLocation)
    ensures
        exists|dated_name: Seq<char>|
            location.file@ == log_root(home@) + dated_name
                && location.dir@ == log_root(home@) + #[trigger] dir_part(dated_name),
{
    let dated_name = local_time_text(LOG_NAME_PATTERN);
    let location = log_location(home, dated_name.as_str());
    assert(location.dir@ == log_root(home@) + dir_part(dated_name@));
    location
}

} // verus!
