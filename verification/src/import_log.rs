//! The log of an import: how its file is named and how a line of it looks.

use vstd::prelude::*;
use vstd::string::StringExecFns;

verus! {

/// The name of the log file of the import session `session_id`.
pub open spec fn log_file_name_spec(session_id: Seq<char>) -> Seq<char> {
    "douban_import_"@ + session_id + ".txt"@
}

/// A line of the log: the time in square brackets, the message, and a line
/// feed.
pub open spec fn log_line_spec(timestamp: Seq<char>, message: Seq<char>) -> Seq<char> {
    "["@ + timestamp + "] "@ + message + "\n"@
}

/// Names the log file of an import session.
pub fn log_file_name(session_id: &str) -> (name: String)
    ensures
        name@ == log_file_name_spec(session_id@),
{
    let mut name = String::from_str("douban_import_");
    name.append(session_id);
    name.append(".txt");
    name
}

/// Writes a line of the log.
pub fn log_line(timestamp: &str, message: &str) -> (line: String)
    ensures
        line@ == log_line_spec(timestamp@, message@),
{
    let mut line = String::from_str("[");
    line.append(timestamp);
    line.append("] ");
    line.append(message);
    line.append("\n");
    line
}

} // verus!
