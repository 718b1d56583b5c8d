//! The lines of the error log.

use vstd::prelude::*;

verus! {

/// An error as it is shown on the console: its kind, a colon and a space,
/// and the message.
pub open spec fn console_text(etype: Seq<char>, e: Seq<char>) -> Seq<char> {
    etype + ": "@ + e
}

/// An error as a line of the log: the time in square brackets, a space, the
/// error as on the console, and a line feed.
pub open spec fn log_text(time: Seq<char>, etype: Seq<char>, e: Seq<char>) -> Seq<char> {
    "["@ + time + "] "@ + console_text(etype, e) + "\n"@
}

/// Writes an error as it is shown on the console.
pub fn console_line(etype: &str, e: &str) -> (r: String)
    ensures
        r@ == console_text(etype@, e@),
{
    let mut out = String::from_str(etype);
    out.append(": ");
    out.append(e);
    out
}

/// Writes an error as a line of the log.
pub fn log_line(time: &str, etype: &str, e: &str) -> (r: String)
    ensures
        r@ == log_text(time@, etype@, e@),
{
    let mut out = String::from_str("[");
    out.append(time);
    out.append("] ");
    out.append(console_line(etype, e).as_str());
    out.append("\n");
    out
}

} // verus!
