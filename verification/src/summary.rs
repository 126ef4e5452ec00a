//! The closing summary of a monitoring run: how much was downloaded, how long it took
//! and how fast it went on average.

use vstd::prelude::*;
use vstd::string::StringExecFns;
use crate::bytes::{append_bytes, bytes_text};
use crate::duration::{append_duration, duration_text};
use crate::size::{growth, size_delta};

verus! {

/// The figures of a run.
#[derive(Clone, Copy, Debug, PartialEq, Eq, Structural)]
pub struct Summary {
    /// Bytes gained since the first observation.
    pub total_downloaded: u64,
    /// The size last observed.
    pub final_size: u64,
    /// Whole seconds from start to stop.
    pub elapsed_secs: u64,
    /// Bytes per second over the run; absent where no whole second has passed.
    pub average_speed: Option<u64>,
}

/// Bytes gained from the first observed size to the final one. A run that never saw
/// the file starts from zero, and a file that ended smaller has gained nothing.
pub open spec fn total_downloaded(initial_size: Option<u64>, final_size: u64) -> nat {
    let first: nat = match initial_size {
        Some(first) => first as nat,
        None => 0,
    };
    growth(first, final_size as nat)
}

/// Whole bytes per second, once at least one second has passed.
pub open spec fn average_speed(total: nat, elapsed_secs: nat) -> Option<nat> {
    if elapsed_secs > 0 {
        Some(total / elapsed_secs)
    } else {
        None
    }
}

/// The figures of a run that first saw `initial_size`, last saw `final_size` and took
/// `elapsed_secs` seconds.
pub open spec fn summary_of(initial_size: Option<u64>, final_size: u64, elapsed_secs: u64)
    -> Summary {
    let total = total_downloaded(initial_size, final_size);
    Summary {
        total_downloaded: total as u64,
        final_size,
        elapsed_secs,
        average_speed: match average_speed(total, elapsed_secs as nat) {
            Some(speed) => Some(speed as u64),
            None => None,
        },
    }
}

/// Neither the total nor the speed exceeds the final size, so both are held without loss.
pub proof fn lemma_summary_figures(initial_size: Option<u64>, final_size: u64, elapsed_secs: u64)
    ensures
        total_downloaded(initial_size, final_size) <= final_size,
        summary_of(initial_size, final_size, elapsed_secs).total_downloaded as nat
            == total_downloaded(initial_size, final_size),
        elapsed_secs > 0 ==> summary_of(initial_size, final_size, elapsed_secs).average_speed
            == Some(
            (total_downloaded(initial_size, final_size) / (elapsed_secs as nat)) as u64,
        ),
        elapsed_secs > 0 ==> total_downloaded(initial_size, final_size) / (elapsed_secs as nat)
            <= final_size,
        elapsed_secs == 0 ==> summary_of(initial_size, final_size, elapsed_secs).average_speed
            is None,
{
    let total = total_downloaded(initial_size, final_size);
    if elapsed_secs > 0 {
        vstd::arithmetic::div_mod::lemma_div_is_ordered_by_denominator(
            total as int,
            1,
            elapsed_secs as int,
        );
        vstd::arithmetic::div_mod::lemma_div_basics(total as int);
    }
}

impl Summary {
    /// The summary block: a blank line, a heading, then one line each for the total,
    /// the final size and the duration, and one for the average speed where there is one.
    pub open spec fn text(self) -> Seq<char> {
        "\n\n--- Download Summary ---\n"@ + "Total downloaded: "@ + bytes_text(
            self.total_downloaded as nat,
        ) + "\n"@ + "Final size: "@ + bytes_text(self.final_size as nat) + "\n"@ + "Duration: "@
            + duration_text(self.elapsed_secs as nat) + "\n"@ + match self.average_speed {
            Some(speed) => "Average speed: "@ + bytes_text(speed as nat) + "/s\n"@,
            None => Seq::<char>::empty(),
        }
    }

    /// The summary block as text.
    pub fn render(&self) -> (text: String)
        ensures
            text@ == self.text(),
    {
        let mut text = String::new();
        text.append("\n\n--- Download Summary ---\n");
        text.append("Total downloaded: ");
        append_bytes(&mut text, self.total_downloaded);
        text.append("\n");
        text.append("Final size: ");
        append_bytes(&mut text, self.final_size);
        text.append("\n");
        text.append("Duration: ");
        append_duration(&mut text, self.elapsed_secs);
        text.append("\n");
        match self.average_speed {
            Some(speed) => {
                text.append("Average speed: ");
                append_bytes(&mut text, speed);
                text.append("/s\n");
            },
            None => {},
        }
        assert(text@ =~= self.text());
        text
    }
}

/// The figures of a run that first saw `initial_size`, last saw `final_size` and took
/// `elapsed_secs` seconds.
pub fn summarize(initial_size: Option<u64>, final_size: u64, elapsed_secs: u64) -> (summary:
    Summary)
    ensures
        summary == summary_of(initial_size, final_size, elapsed_secs),
{
    let first = match initial_size {
        Some(first) => first,
        None => 0,
    };
    let total = size_delta(first, final_size);
    let speed = if elapsed_secs > 0 {
        Some(total / elapsed_secs)
    } else {
        None
    };
    Summary { total_downloaded: total, final_size, elapsed_secs, average_speed: speed }
}

/// The summary block of a run, from its three measurements.
pub fn summary_report(initial_size: Option<u64>, final_size: u64, elapsed_secs: u64) -> (text:
    String)
    ensures
        text@ == summary_of(initial_size, final_size, elapsed_secs).text(),
{
    let summary = summarize(initial_size, final_size, elapsed_secs);
    summary.render()
}

} // verus!
