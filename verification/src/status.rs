//! What the monitor shows at a tick, and the lines it is shown as.

use vstd::prelude::*;
use vstd::string::StringExecFns;
use crate::bytes::{append_bytes, bytes_text};
use crate::decimal::{append_decimal, decimal};
use crate::monitor::IDLE_LIMIT;

verus! {

/// What there is to show after a tick.
#[derive(Clone, Copy, Debug, PartialEq, Eq, Structural)]
pub enum Status {
    /// No size could be read yet.
    Waiting,
    /// The first size read.
    Initial { size: u64 },
    /// No growth since the tick before, for `idle_ticks` ticks in a row; shown against
    /// the limit at which the monitor stops.
    Idle { size: u64, idle_ticks: u64 },
    /// The file grew by `speed` bytes in the second since the tick before.
    Growing { size: u64, speed: u64 },
}

impl Status {
    /// The line of a status. All but the first size start with a carriage return, so
    /// that each takes the place of the line before; the first size is a line of its own.
    pub open spec fn line(self) -> Seq<char> {
        match self {
            Status::Waiting => "\rWaiting for file to appear...    "@,
            Status::Initial { size } => "Initial size: "@ + bytes_text(size as nat) + "\n"@,
            Status::Idle { size, idle_ticks } => "\rSize: "@ + bytes_text(size as nat)
                + " | Speed: 0 B/s (idle "@ + decimal(idle_ticks as nat) + "/"@ + decimal(
                IDLE_LIMIT as nat,
            ) + ")    "@,
            Status::Growing { size, speed } => "\rSize: "@ + bytes_text(size as nat)
                + " | Speed: "@ + bytes_text(speed as nat) + "/s         "@,
        }
    }

    /// The line of a status as text.
    pub fn render(&self) -> (text: String)
        ensures
            text@ == self.line(),
    {
        let mut text = String::new();
        match *self {
            Status::Waiting => {
                text.append("\rWaiting for file to appear...    ");
            },
            Status::Initial { size } => {
                text.append("Initial size: ");
                append_bytes(&mut text, size);
                text.append("\n");
            },
            Status::Idle { size, idle_ticks } => {
                text.append("\rSize: ");
                append_bytes(&mut text, size);
                text.append(" | Speed: 0 B/s (idle ");
                append_decimal(&mut text, idle_ticks);
                text.append("/");
                append_decimal(&mut text, IDLE_LIMIT);
                text.append(")    ");
            },
            Status::Growing { size, speed } => {
                text.append("\rSize: ");
                append_bytes(&mut text, size);
                text.append(" | Speed: ");
                append_bytes(&mut text, speed);
                text.append("/s         ");
            },
        }
        assert(text@ =~= self.line());
        text
    }
}

/// The notice that the file is lost: a line break, the message, the cause, a line break.
pub open spec fn inaccessible_text(cause: Seq<char>) -> Seq<char> {
    "\nFile no longer accessible: "@ + cause + "\n"@
}

/// The notice that the file can no longer be read, with the cause as the system gave it.
pub fn inaccessible_notice(cause: &str) -> (text: String)
    ensures
        text@ == inaccessible_text(cause@),
{
    let mut text = String::new();
    text.append("\nFile no longer accessible: ");
    text.append(cause);
    text.append("\n");
    assert(text@ =~= inaccessible_text(cause@));
    text
}

} // verus!
