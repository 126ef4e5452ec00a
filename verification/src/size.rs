//! Differences between two observed file sizes.

use vstd::prelude::*;

verus! {

/// Growth from `previous` to `current`, in the mathematical integers: a shrink counts as no growth.
pub open spec fn growth(previous: nat, current: nat) -> nat {
    if current >= previous {
        (current - previous) as nat
    } else {
        0
    }
}

/// Bytes gained between two observations; never negative, a shrink gives zero.
pub fn size_delta(previous: u64, current: u64) -> (delta: u64)
    ensures
        delta as nat == growth(previous as nat, current as nat),
{
    if current >= previous {
        current - previous
    } else {
        0
    }
}

} // verus!
