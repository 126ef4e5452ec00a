//! The command line: one argument, the path of the file to watch.

use vstd::prelude::*;
use vstd::string::StringExecFns;
use crate::decimal::{append_decimal, decimal};
use crate::monitor::{IDLE_LIMIT, TICK_SECS};

verus! {

/// The usage line for a program called `program`.
pub open spec fn usage_text(program: Seq<char>) -> Seq<char> {
    "Usage: "@ + program + " <file_path>\n"@
}

/// What is shown before the first tick: the file that is watched, and how to stop.
pub open spec fn banner_text(path: Seq<char>) -> Seq<char> {
    "Monitoring download speed for: "@ + path + "\n"@
        + "Press Ctrl+C to stop (auto-exits after "@ + decimal((IDLE_LIMIT * TICK_SECS) as nat)
        + "s of no activity)\n\n"@
}

/// The path to watch: the one argument after the program's name. Any other number of
/// arguments gives none.
pub fn target_path(args: &Vec<String>) -> (path: Option<&str>)
    ensures
        path is Some <==> args@.len() == 2,
        path matches Some(p) ==> p@ == args@[1]@,
{
    if args.len() == 2 {
        Some(args[1].as_str())
    } else {
        None
    }
}

/// The usage line as text.
pub fn usage(program: &str) -> (text: String)
    ensures
        text@ == usage_text(program@),
{
    let mut text = String::new();
    text.append("Usage: ");
    text.append(program);
    text.append(" <file_path>\n");
    assert(text@ =~= usage_text(program@));
    text
}

/// The opening lines as text.
pub fn banner(path: &str) -> (text: String)
    ensures
        text@ == banner_text(path@),
{
    let mut text = String::new();
    text.append("Monitoring download speed for: ");
    text.append(path);
    text.append("\n");
    text.append("Press Ctrl+C to stop (auto-exits after ");
    append_decimal(&mut text, IDLE_LIMIT * TICK_SECS);
    text.append("s of no activity)\n\n");
    assert(text@ =~= banner_text(path@));
    text
}

} // verus!
