//! Rounding to the nearest value, ties to even: of a quotient to an integer, and of an
//! integer to the nearest double-precision number.

use vstd::prelude::*;

verus! {

/// The first integer that a double cannot tell from its successor: two to the 53rd.
pub const DOUBLE_EXACT_LIMIT: u64 = 0x20_0000_0000_0000;

/// The integer nearest to `num / den`. Where two integers are equally near, the even one.
pub open spec fn round_half_even(num: nat, den: nat) -> nat
    recommends
        den > 0,
{
    let q = num / den;
    let r = num % den;
    if 2 * r > den || (2 * r == den && q % 2 == 1) {
        q + 1
    } else {
        q
    }
}

/// The distance between neighbouring doubles around the integer `n`: one up to 53 bits,
/// and twice as much with every further bit.
pub open spec fn double_spacing(n: nat) -> nat
    decreases n,
{
    if n < DOUBLE_EXACT_LIMIT {
        1
    } else {
        2 * double_spacing(n / 2)
    }
}

/// The double nearest to the integer `n`, itself an integer: `n` rounded to a multiple of
/// the spacing, ties to the even multiple.
pub open spec fn nearest_double(n: nat) -> nat {
    double_spacing(n) * round_half_even(n, double_spacing(n))
}

/// The rounded quotient is within half a unit of the exact one.
pub proof fn lemma_round_half_even_near(num: nat, den: nat)
    requires
        den > 0,
    ensures
        2 * (round_half_even(num, den) * den - num) <= den,
        2 * (num - round_half_even(num, den) * den) <= den,
{
    let q = num / den;
    let r = num % den;
    assert(num == q * den + r && r < den) by {
        vstd::arithmetic::div_mod::lemma_fundamental_div_mod(num as int, den as int);
        vstd::arithmetic::div_mod::lemma_mod_bound(num as int, den as int);
        assert(den * q == q * den) by (nonlinear_arith);
    }
    assert((q + 1) * den == q * den + den) by (nonlinear_arith);
}

/// A quotient that is exact is left as it is.
pub proof fn lemma_round_half_even_exact(q: nat, den: nat)
    requires
        den > 0,
    ensures
        round_half_even(q * den, den) == q,
{
    vstd::arithmetic::div_mod::lemma_fundamental_div_mod_converse(
        (q * den) as int,
        den as int,
        q as int,
        0,
    );
}

/// The spacing is positive, and from 53 bits on it is at most `n` over two to the 52nd.
pub proof fn lemma_double_spacing_bound(n: nat)
    ensures
        double_spacing(n) >= 1,
        n < DOUBLE_EXACT_LIMIT ==> double_spacing(n) == 1,
        n >= DOUBLE_EXACT_LIMIT ==> double_spacing(n) * 0x10_0000_0000_0000 <= n,
    decreases n,
{
    if n >= DOUBLE_EXACT_LIMIT {
        lemma_double_spacing_bound(n / 2);
    }
}

/// Integers of up to 53 bits are doubles themselves.
pub proof fn lemma_nearest_double_exact(n: nat)
    requires
        n < DOUBLE_EXACT_LIMIT,
    ensures
        nearest_double(n) == n,
{
    lemma_round_half_even_exact(n, 1);
    assert(n * 1 == n);
    assert(1 * n == n);
}

/// The nearest double differs from `n` by at most half the spacing, which is at most
/// `n` over two to the 53rd.
pub proof fn lemma_nearest_double_near(n: nat)
    ensures
        (nearest_double(n) - n) * DOUBLE_EXACT_LIMIT <= n,
        (n - nearest_double(n)) * DOUBLE_EXACT_LIMIT <= n,
{
    if n < DOUBLE_EXACT_LIMIT {
        lemma_nearest_double_exact(n);
    } else {
        let s = double_spacing(n);
        let k = round_half_even(n, s);
        lemma_double_spacing_bound(n);
        lemma_round_half_even_near(n, s);
        assert(s * k == k * s) by (nonlinear_arith);
        let up = nearest_double(n) - n;
        let down = n - nearest_double(n);
        assert(2 * up <= s && 2 * down <= s);
        assert(up * DOUBLE_EXACT_LIMIT <= n) by (nonlinear_arith)
            requires
                2 * up <= s,
                s * 0x10_0000_0000_0000 <= n,
                DOUBLE_EXACT_LIMIT == 0x20_0000_0000_0000,
        ;
        assert(down * DOUBLE_EXACT_LIMIT <= n) by (nonlinear_arith)
            requires
                2 * down <= s,
                s * 0x10_0000_0000_0000 <= n,
                DOUBLE_EXACT_LIMIT == 0x20_0000_0000_0000,
        ;
    }
}

/// `num / den` rounded to the nearest integer, ties to even.
pub fn rounded_quotient(num: u128, den: u64) -> (q: u128)
    requires
        den > 0,
    ensures
        q as nat == round_half_even(num as nat, den as nat),
{
    let wide: u128 = den as u128;
    let q: u128 = num / wide;
    let r: u128 = num % wide;
    let twice: u128 = 2 * r;
    if twice > wide || (twice == wide && q % 2 == 1) {
        assert(wide >= 2);
        assert(q < u128::MAX) by (nonlinear_arith)
            requires
                q == num / wide,
                wide >= 2,
                num <= u128::MAX,
        ;
        q + 1
    } else {
        q
    }
}

/// The distance between neighbouring doubles around `n`.
pub fn spacing_of(n: u64) -> (spacing: u64)
    ensures
        spacing as nat == double_spacing(n as nat),
        1 <= spacing < 4096,
{
    let mut spacing: u64 = 1;
    let mut rest: u64 = n;
    while rest >= DOUBLE_EXACT_LIMIT
        invariant
            1 <= spacing < 4096,
            rest as nat * spacing as nat <= n as nat,
            double_spacing(n as nat) == spacing as nat * double_spacing(rest as nat),
        decreases rest,
    {
        assert(spacing < 2048) by (nonlinear_arith)
            requires
                rest >= 0x20_0000_0000_0000,
                rest as nat * spacing as nat <= n as nat,
                n <= u64::MAX,
        ;
        assert((rest / 2) as nat * (spacing * 2) as nat <= rest as nat * spacing as nat)
            by (nonlinear_arith);
        assert(spacing as nat * (2 * double_spacing(rest as nat / 2)) == (spacing * 2) as nat
            * double_spacing((rest / 2) as nat)) by (nonlinear_arith);
        rest = rest / 2;
        spacing = spacing * 2;
    }
    assert(spacing as nat * 1 == spacing as nat);
    spacing
}

/// The double nearest to `n`, as an integer. It may be two to the 64th, one more than
/// the largest `u64`.
pub fn nearest_double_of(n: u64) -> (d: u128)
    ensures
        d as nat == nearest_double(n as nat),
        d <= 0x1_0000_0000_0000_1000,
{
    let spacing = spacing_of(n);
    let k = rounded_quotient(n as u128, spacing);
    proof {
        lemma_round_half_even_near(n as nat, spacing as nat);
        assert(k * spacing <= n + spacing) by (nonlinear_arith)
            requires
                2 * (k * spacing - n) <= spacing,
        ;
        assert(spacing as nat * k as nat == k * spacing) by (nonlinear_arith);
    }
    (spacing as u128) * k
}

} // verus!
