//! Durations in whole seconds, shown as hours, minutes and seconds.

use vstd::prelude::*;
use vstd::string::StringExecFns;
use crate::decimal::{append_decimal, decimal};

verus! {

/// Seconds in a minute.
pub const MINUTE: u64 = 60;

/// Seconds in an hour.
pub const HOUR: u64 = 3600;

/// A duration taken apart: whole hours, then minutes and seconds below sixty.
#[derive(Clone, Copy, Debug, PartialEq, Eq, Structural)]
pub struct DurationParts {
    pub hours: u64,
    pub minutes: u64,
    pub seconds: u64,
}

/// The whole hours in `secs` seconds.
pub open spec fn hours_of(secs: nat) -> nat {
    secs / (HOUR as nat)
}

/// The whole minutes left after the hours.
pub open spec fn minutes_of(secs: nat) -> nat {
    (secs % (HOUR as nat)) / (MINUTE as nat)
}

/// The seconds left after the minutes.
pub open spec fn seconds_of(secs: nat) -> nat {
    secs % (MINUTE as nat)
}

/// The text of a duration: `1h 2m 3s` from an hour on, `2m 3s` from a minute on,
/// else `3s`. Leading parts that are zero are left out, later ones are kept.
pub open spec fn duration_text(secs: nat) -> Seq<char> {
    if secs >= HOUR {
        decimal(hours_of(secs)) + "h "@ + decimal(minutes_of(secs)) + "m "@ + decimal(
            seconds_of(secs),
        ) + "s"@
    } else if secs >= MINUTE {
        decimal(minutes_of(secs)) + "m "@ + decimal(seconds_of(secs)) + "s"@
    } else {
        decimal(seconds_of(secs)) + "s"@
    }
}

/// The parts of a duration add up to it again, minutes and seconds stay below sixty,
/// and a part that the text leaves out is zero.
pub proof fn lemma_duration_recombines(secs: nat)
    ensures
        hours_of(secs) * 3600 + minutes_of(secs) * 60 + seconds_of(secs) == secs,
        minutes_of(secs) < 60,
        seconds_of(secs) < 60,
        secs < HOUR ==> hours_of(secs) == 0,
        secs < MINUTE ==> minutes_of(secs) == 0,
{
}

/// Takes `secs` seconds apart into hours, minutes and seconds.
pub fn split_duration(secs: u64) -> (parts: DurationParts)
    ensures
        parts.hours as nat == hours_of(secs as nat),
        parts.minutes as nat == minutes_of(secs as nat),
        parts.seconds as nat == seconds_of(secs as nat),
        parts.hours * 3600 + parts.minutes * 60 + parts.seconds == secs,
        parts.minutes < 60,
        parts.seconds < 60,
{
    proof {
        lemma_duration_recombines(secs as nat);
    }
    DurationParts { hours: secs / HOUR, minutes: (secs % HOUR) / MINUTE, seconds: secs % MINUTE }
}

/// Writes the text of a duration at the end of `out`.
pub fn append_duration(out: &mut String, secs: u64)
    ensures
        final(out)@ == old(out)@ + duration_text(secs as nat),
{
    let parts = split_duration(secs);
    if secs >= HOUR {
        append_decimal(out, parts.hours);
        out.append("h ");
    }
    if secs >= MINUTE {
        append_decimal(out, parts.minutes);
        out.append("m ");
    }
    append_decimal(out, parts.seconds);
    out.append("s");
    assert(final(out)@ =~= old(out)@ + duration_text(secs as nat));
}

/// A duration as text: `45s`, `2m 5s`, `1h 0m 7s`.
pub fn format_duration(secs: u64) -> (text: String)
    ensures
        text@ == duration_text(secs as nat),
{
    let mut text = String::new();
    append_duration(&mut text, secs);
    assert(text@ =~= duration_text(secs as nat));
    text
}

} // verus!
