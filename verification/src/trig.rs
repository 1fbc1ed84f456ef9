//! Angles and trigonometry in binary angle measurement: a full turn is
//! 65536 steps, so a `u16` holds any direction and wrap-around is free.
//! Sine and cosine are fixed-point (thousandths), read from a quarter-wave
//! table of 1024-step knots with linear interpolation between them; the
//! table is exact at the quarter turns.

use vstd::prelude::*;

verus! {

/// Binary-angle steps in a quarter turn.
pub const QUARTER_TURN: u16 = 16384;

/// Binary-angle steps in a half turn.
pub const HALF_TURN: u16 = 32768;

/// Binary-angle steps in a full turn.
pub const FULL_TURN: u32 = 65536;

/// Sine at knot `k` (every 1024 binary-angle steps of the first quarter),
/// in fixed-point thousandths.
pub open spec fn spec_sin_knot(k: int) -> int {
    if k <= 0 {
        0
    } else if k == 1 {
        98
    } else if k == 2 {
        195
    } else if k == 3 {
        290
    } else if k == 4 {
        383
    } else if k == 5 {
        471
    } else if k == 6 {
        556
    } else if k == 7 {
        634
    } else if k == 8 {
        707
    } else if k == 9 {
        773
    } else if k == 10 {
        831
    } else if k == 11 {
        882
    } else if k == 12 {
        924
    } else if k == 13 {
        957
    } else if k == 14 {
        981
    } else if k == 15 {
        995
    } else {
        1000
    }
}

fn sin_knot(k: u16) -> (v: i64)
    ensures
        v == spec_sin_knot(k as int),
{
    if k == 0 {
        0
    } else if k == 1 {
        98
    } else if k == 2 {
        195
    } else if k == 3 {
        290
    } else if k == 4 {
        383
    } else if k == 5 {
        471
    } else if k == 6 {
        556
    } else if k == 7 {
        634
    } else if k == 8 {
        707
    } else if k == 9 {
        773
    } else if k == 10 {
        831
    } else if k == 11 {
        882
    } else if k == 12 {
        924
    } else if k == 13 {
        957
    } else if k == 14 {
        981
    } else if k == 15 {
        995
    } else {
        1000
    }
}

/// Sine over the first quarter turn, `0 <= a <= 16384`, interpolating
/// linearly between the knots.
pub open spec fn spec_quarter_sin(a: int) -> int {
    let k = a / 1024;
    let f = a % 1024;
    spec_sin_knot(k) + (spec_sin_knot(k + 1) - spec_sin_knot(k)) * f / 1024
}

/// Each knot is at least its predecessor and climbs by at most 98.
proof fn lemma_knot_step(k: int)
    ensures
        spec_sin_knot(k) <= spec_sin_knot(k + 1) <= spec_sin_knot(k) + 98,
        0 <= spec_sin_knot(k) <= 1000,
{
}

/// The quarter-wave values stay within [0, 1000].
pub proof fn lemma_quarter_sin_bounds(a: int)
    requires
        0 <= a <= QUARTER_TURN,
    ensures
        0 <= spec_quarter_sin(a) <= 1000,
{
    let k = a / 1024;
    let f = a % 1024;
    vstd::arithmetic::div_mod::lemma_mod_division_less_than_divisor(a, 1024);
    vstd::arithmetic::div_mod::lemma_div_pos_is_pos(a, 1024);
    lemma_knot_step(k);
    let d = spec_sin_knot(k + 1) - spec_sin_knot(k);
    assert(0 <= d * f <= d * 1024) by (nonlinear_arith)
        requires
            0 <= d,
            0 <= f < 1024,
    ;
    vstd::arithmetic::div_mod::lemma_div_pos_is_pos(d * f, 1024);
    vstd::arithmetic::div_mod::lemma_div_is_ordered(d * f, d * 1024, 1024);
    vstd::arithmetic::div_mod::lemma_div_by_multiple(d, 1024);
}

fn quarter_sin(a: u16) -> (v: i64)
    requires
        a <= QUARTER_TURN,
    ensures
        v == spec_quarter_sin(a as int),
        0 <= v <= 1000,
{
    proof {
        lemma_quarter_sin_bounds(a as int);
    }
    let k = a / 1024;
    let f = a % 1024;
    let lo = sin_knot(k);
    let hi = sin_knot(k + 1);
    proof {
        lemma_knot_step(k as int);
    }
    lo + (hi - lo) * (f as i64) / 1024
}

/// Sine of a binary angle, in fixed-point thousandths, by quarter-wave
/// symmetry.
pub open spec fn spec_sin(a: int) -> int {
    if a < QUARTER_TURN {
        spec_quarter_sin(a)
    } else if a < HALF_TURN {
        spec_quarter_sin(HALF_TURN - a)
    } else if a < HALF_TURN + QUARTER_TURN {
        -spec_quarter_sin(a - HALF_TURN)
    } else {
        -spec_quarter_sin(FULL_TURN - a)
    }
}

/// Cosine of a binary angle: sine a quarter turn ahead.
pub open spec fn spec_cos(a: int) -> int {
    spec_sin((a + QUARTER_TURN) % (FULL_TURN as int))
}

pub fn sin_bam(a: u16) -> (v: i64)
    ensures
        v == spec_sin(a as int),
        -1000 <= v <= 1000,
{
    if a < QUARTER_TURN {
        quarter_sin(a)
    } else if a < HALF_TURN {
        quarter_sin(HALF_TURN - a)
    } else if a < HALF_TURN + QUARTER_TURN {
        -quarter_sin(a - HALF_TURN)
    } else {
        proof {
            assert(FULL_TURN - a <= QUARTER_TURN);
        }
        -quarter_sin(((FULL_TURN - a as u32) as u16))
    }
}

pub fn cos_bam(a: u16) -> (v: i64)
    ensures
        v == spec_cos(a as int),
        -1000 <= v <= 1000,
{
    let shifted = ((a as u32 + QUARTER_TURN as u32) % FULL_TURN) as u16;
    sin_bam(shifted)
}

} // verus!
