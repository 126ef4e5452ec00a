//! Byte counts in binary units: bytes as they are, larger counts in KB, MB or GB
//! with two decimals.

use vstd::prelude::*;
use vstd::string::StringExecFns;
use crate::decimal::{append_decimal, decimal, digit_char, digit_str};
use crate::rounding::{
    lemma_nearest_double_exact,
    lemma_nearest_double_near,
    lemma_round_half_even_near,
    nearest_double,
    nearest_double_of,
    round_half_even,
    rounded_quotient,
    DOUBLE_EXACT_LIMIT,
};

verus! {

/// Bytes in a kilobyte.
pub const KB: u64 = 1024;

/// Bytes in a megabyte.
pub const MB: u64 = 1_048_576;

/// Bytes in a gigabyte.
pub const GB: u64 = 1_073_741_824;

/// The units in which a byte count is shown, smallest first.
#[derive(Clone, Copy, Debug, PartialEq, Eq, Structural)]
pub enum Unit {
    Bytes,
    Kilobytes,
    Megabytes,
    Gigabytes,
}

impl Unit {
    /// How many bytes make one of this unit.
    pub open spec fn size(self) -> nat {
        match self {
            Unit::Bytes => 1,
            Unit::Kilobytes => KB as nat,
            Unit::Megabytes => MB as nat,
            Unit::Gigabytes => GB as nat,
        }
    }

    /// What follows the number: a space and the unit's short name.
    pub open spec fn suffix(self) -> Seq<char> {
        match self {
            Unit::Bytes => " B"@,
            Unit::Kilobytes => " KB"@,
            Unit::Megabytes => " MB"@,
            Unit::Gigabytes => " GB"@,
        }
    }

    /// How many bytes make one of this unit.
    pub fn bytes(self) -> (n: u64)
        ensures
            n as nat == self.size(),
    {
        match self {
            Unit::Bytes => 1,
            Unit::Kilobytes => KB,
            Unit::Megabytes => MB,
            Unit::Gigabytes => GB,
        }
    }

    /// What follows the number: a space and the unit's short name.
    pub fn label(self) -> (s: &'static str)
        ensures
            s@ == self.suffix(),
    {
        match self {
            Unit::Bytes => " B",
            Unit::Kilobytes => " KB",
            Unit::Megabytes => " MB",
            Unit::Gigabytes => " GB",
        }
    }
}

/// The unit in which `bytes` is shown: the largest that `bytes` holds at least once.
pub open spec fn unit_of(bytes: nat) -> Unit {
    if bytes >= GB {
        Unit::Gigabytes
    } else if bytes >= MB {
        Unit::Megabytes
    } else if bytes >= KB {
        Unit::Kilobytes
    } else {
        Unit::Bytes
    }
}

/// `bytes` in hundredths of its unit: the count is first taken to the nearest double,
/// then the quotient to the nearest hundredth, ties to even both times.
pub open spec fn hundredths(bytes: nat) -> nat {
    round_half_even(100 * nearest_double(bytes), unit_of(bytes).size())
}

/// The text of a byte count: below a kilobyte the plain number and ` B`; from there on
/// the count in its unit with exactly two decimals, then ` KB`, ` MB` or ` GB`.
pub open spec fn bytes_text(bytes: nat) -> Seq<char> {
    match unit_of(bytes) {
        Unit::Bytes => decimal(bytes) + Unit::Bytes.suffix(),
        unit => {
            let h = hundredths(bytes);
            decimal(h / 100) + "."@ + seq![digit_char((h / 10) % 10), digit_char(h % 10)]
                + unit.suffix()
        },
    }
}

/// The unit chosen is the largest one that does not exceed the count, and bytes where
/// none does. So the count in its unit is at least 1 from a kilobyte on, and below 1024
/// up to a terabyte, beyond which gigabytes are kept.
pub proof fn lemma_unit_of_range(bytes: nat)
    ensures
        bytes < KB <==> unit_of(bytes) == Unit::Bytes,
        bytes >= KB ==> bytes / unit_of(bytes).size() >= 1,
        bytes < 1024 * GB ==> bytes / unit_of(bytes).size() < 1024,
        forall|other: Unit| #[trigger] other.size() <= bytes ==> other.size() <= unit_of(bytes).size(),
{
    let size = unit_of(bytes).size();
    if bytes >= KB {
        vstd::arithmetic::div_mod::lemma_div_is_ordered(size as int, bytes as int, size as int);
        vstd::arithmetic::div_mod::lemma_div_basics(size as int);
    }
    if bytes < 1024 * GB {
        assert(bytes < 1024 * size);
        vstd::arithmetic::div_mod::lemma_multiply_divide_lt(bytes as int, size as int, 1024);
    }
}

/// The number shown, taken back to bytes, is within one hundredth of a unit of the
/// count; within half a hundredth while the count has at most 53 bits.
pub proof fn lemma_hundredths_near(bytes: nat)
    requires
        bytes <= u64::MAX,
    ensures
        hundredths(bytes) * unit_of(bytes).size() - 100 * bytes <= unit_of(bytes).size(),
        100 * bytes - hundredths(bytes) * unit_of(bytes).size() <= unit_of(bytes).size(),
        bytes < DOUBLE_EXACT_LIMIT ==> 2 * (hundredths(bytes) * unit_of(bytes).size() - 100
            * bytes) <= unit_of(bytes).size(),
        bytes < DOUBLE_EXACT_LIMIT ==> 2 * (100 * bytes - hundredths(bytes) * unit_of(
            bytes,
        ).size()) <= unit_of(bytes).size(),
{
    let size = unit_of(bytes).size();
    let d = nearest_double(bytes);
    lemma_round_half_even_near(100 * d, size);
    if bytes < DOUBLE_EXACT_LIMIT {
        lemma_nearest_double_exact(bytes);
    } else {
        lemma_nearest_double_near(bytes);
        assert(size == GB);
        assert(d - bytes <= 2048 && bytes - d <= 2048) by (nonlinear_arith)
            requires
                (d - bytes) * DOUBLE_EXACT_LIMIT <= bytes,
                (bytes - d) * DOUBLE_EXACT_LIMIT <= bytes,
                bytes <= u64::MAX,
                DOUBLE_EXACT_LIMIT == 0x20_0000_0000_0000,
        ;
    }
}

/// A byte count below a kilobyte is shown exactly.
pub proof fn lemma_plain_bytes_exact(bytes: nat)
    requires
        bytes < KB,
    ensures
        bytes_text(bytes) == decimal(bytes) + " B"@,
{
}

/// The unit in which `bytes` is shown.
pub fn select_unit(bytes: u64) -> (unit: Unit)
    ensures
        unit == unit_of(bytes as nat),
{
    if bytes >= GB {
        Unit::Gigabytes
    } else if bytes >= MB {
        Unit::Megabytes
    } else if bytes >= KB {
        Unit::Kilobytes
    } else {
        Unit::Bytes
    }
}

/// `bytes` in hundredths of its unit, rounded as the text shows it.
pub fn scale_bytes(bytes: u64) -> (h: u64)
    ensures
        h as nat == hundredths(bytes as nat),
{
    let unit = select_unit(bytes);
    let d = nearest_double_of(bytes);
    let h = rounded_quotient(100 * d, unit.bytes());
    proof {
        let size = unit.size();
        lemma_round_half_even_near((100 * d) as nat, size);
        if bytes < KB {
            lemma_nearest_double_exact(bytes as nat);
            assert(h * size == h) by (nonlinear_arith)
                requires
                    size == 1,
            ;
        } else {
            assert(h <= 0x4000_0000_0000_0000) by (nonlinear_arith)
                requires
                    2 * (h * size - 100 * d) <= size,
                    size >= 1024,
                    d <= 0x1_0000_0000_0000_1000,
            ;
        }
    }
    h as u64
}

/// Writes the text of a byte count at the end of `out`.
pub fn append_bytes(out: &mut String, bytes: u64)
    ensures
        final(out)@ == old(out)@ + bytes_text(bytes as nat),
{
    let unit = select_unit(bytes);
    match unit {
        Unit::Bytes => {
            append_decimal(out, bytes);
            out.append(unit.label());
            assert(final(out)@ =~= old(out)@ + bytes_text(bytes as nat));
        },
        _ => {
            let h = scale_bytes(bytes);
            append_decimal(out, h / 100);
            out.append(".");
            out.append(digit_str((h / 10) % 10));
            out.append(digit_str(h % 10));
            out.append(unit.label());
            assert(final(out)@ =~= old(out)@ + bytes_text(bytes as nat));
        },
    }
}

/// A byte count as text: `512 B`, `1.50 KB`, `2.00 MB`, `3.25 GB`.
pub fn format_bytes(bytes: u64) -> (text: String)
    ensures
        text@ == bytes_text(bytes as nat),
{
    let mut text = String::new();
    append_bytes(&mut text, bytes);
    assert(text@ =~= bytes_text(bytes as nat));
    text
}

} // verus!
