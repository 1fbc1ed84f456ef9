//! Fixed-point scalars: every world quantity (distance, velocity, damage,
//! the score multiplier) is an `i64` counting thousandths of a unit.

use vstd::prelude::*;

verus! {

/// One whole unit, in fixed-point thousandths.
pub const FX_ONE: i64 = 1000;

/// Magnitude bound on fixed-point values that enter products: one billion
/// raw thousandths (a million world units). Squares and scaled products of
/// such values stay well inside `i64`.
pub const FX_BOUND: i64 = 1_000_000_000;

/// A fixed-point value small enough for the products the library forms.
pub open spec fn fx_bounded(v: i64) -> bool {
    -FX_BOUND <= v <= FX_BOUND
}

/// The same bound, on a mathematical integer.
pub open spec fn fxb(v: int) -> bool {
    -FX_BOUND <= v <= FX_BOUND
}

/// Floor division by a positive divisor (the rounding used throughout).
pub fn div_floor(a: i64, d: i64) -> (r: i64)
    requires
        1 <= d <= 0x1000_0000_0000_0000,
        -0x1000_0000_0000_0000 <= a <= 0x1000_0000_0000_0000,
    ensures
        r == a as int / d as int,
{
    if a >= 0 {
        a / d
    } else {
        let m = -a;
        let q = (m + d - 1) / d;
        proof {
            let mi = m as int;
            let di = d as int;
            let qi = q as int;
            vstd::arithmetic::div_mod::lemma_fundamental_div_mod(mi + di - 1, di);
            assert(mi + di - 1 == di * qi + ((mi + di - 1) % di));
            vstd::arithmetic::div_mod::lemma_mod_division_less_than_divisor(mi + di - 1, di);
            // From x == d*q + r with 0 <= r < d: m <= d*q <= m + d - 1,
            // so a == (-q)*d + (d*q - m) with remainder in [0, d).
            assert((-qi) * di == -(di * qi)) by (nonlinear_arith);
            vstd::arithmetic::div_mod::lemma_fundamental_div_mod_converse_div(
                a as int,
                di,
                -qi,
                di * qi - mi,
            );
        }
        -q
    }
}

/// Floor division by a positive divisor moves a value toward zero: the
/// quotient keeps the sign and never grows in magnitude.
pub proof fn lemma_div_magnitude(a: int, d: int)
    requires
        d >= 1,
    ensures
        a >= 0 ==> 0 <= a / d <= a,
        a < 0 ==> a <= a / d <= 0,
{
    if a >= 0 {
        vstd::arithmetic::div_mod::lemma_div_pos_is_pos(a, d);
        vstd::arithmetic::div_mod::lemma_div_nonincreasing(a, d);
    } else {
        assert(d * a <= a) by (nonlinear_arith)
            requires
                d >= 1 && a < 0,
        ;
        vstd::arithmetic::div_mod::lemma_div_is_ordered(d * a, a, d);
        vstd::arithmetic::div_mod::lemma_div_multiples_vanish(a, d);
        vstd::arithmetic::div_mod::lemma_div_is_ordered(a, 0, d);
        vstd::arithmetic::div_mod::lemma_div_multiples_vanish(0, d);
        assert(d * 0 == 0);
    }
}

/// A quotient is bounded once the numerator is within the matching
/// multiple of the divisor.
pub proof fn lemma_div_bounded(a: int, d: int, m: int)
    requires
        d >= 1,
        0 <= m,
        -(m * d) <= a <= m * d,
    ensures
        -m <= a / d <= m,
{
    vstd::arithmetic::div_mod::lemma_div_is_ordered(a, m * d, d);
    vstd::arithmetic::div_mod::lemma_div_is_ordered(-(m * d), a, d);
    vstd::arithmetic::div_mod::lemma_div_multiples_vanish(m, d);
    vstd::arithmetic::div_mod::lemma_div_multiples_vanish(-m, d);
    assert(m * d == d * m) by (nonlinear_arith);
    assert(-(m * d) == d * (-m)) by (nonlinear_arith);
}

/// Multiplying both sides of an inequality by a nonnegative factor.
pub proof fn lemma_mul_le(a: int, b: int, m: int)
    requires
        a <= b,
        0 <= m,
    ensures
        a * m <= b * m,
{
    assert(a * m <= b * m) by (nonlinear_arith)
        requires
            a <= b && 0 <= m,
    ;
}

/// Euclidean remainder by a positive modulus: the result is in `[0, m)`.
pub fn mod_euclid(a: i64, m: i64) -> (r: i64)
    requires
        1 <= m <= 0x1000_0000_0000_0000,
        -0x1000_0000_0000_0000 <= a <= 0x1000_0000_0000_0000,
    ensures
        r == a as int % m as int,
        0 <= r < m,
{
    let q = div_floor(a, m);
    proof {
        vstd::arithmetic::div_mod::lemma_fundamental_div_mod(a as int, m as int);
        vstd::arithmetic::div_mod::lemma_mod_division_less_than_divisor(a as int, m as int);
    }
    a - q * m
}

} // verus!
