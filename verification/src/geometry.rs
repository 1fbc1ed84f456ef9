//! Planar geometry over fixed-point scalars: vectors, an exact integer
//! square root for normalisation, rotations held as unit vectors (cosine and
//! sine in thousandths), and the spawn transform of an entity.

use vstd::prelude::*;
use crate::fixed::{div_floor, fx_bounded, FX_BOUND, FX_ONE};
use crate::trig::{cos_bam, sin_bam, spec_cos, spec_sin};

verus! {

#[derive(Clone, Copy, Debug, PartialEq, Eq, Structural)]
pub struct Vec2 {
    pub x: i64,
    pub y: i64,
}

pub open spec fn vec2_bounded(v: Vec2) -> bool {
    fx_bounded(v.x) && fx_bounded(v.y)
}

impl Vec2 {
    pub fn zero() -> (r: Vec2)
        ensures
            r == (Vec2 { x: 0, y: 0 }),
    {
        Vec2 { x: 0, y: 0 }
    }

    pub fn add(self, other: Vec2) -> (r: Vec2)
        requires
            -0x2000_0000_0000_0000 <= self.x + other.x <= 0x2000_0000_0000_0000,
            -0x2000_0000_0000_0000 <= self.y + other.y <= 0x2000_0000_0000_0000,
        ensures
            r.x == self.x + other.x,
            r.y == self.y + other.y,
    {
        Vec2 { x: self.x + other.x, y: self.y + other.y }
    }

    pub fn sub(self, other: Vec2) -> (r: Vec2)
        requires
            -0x2000_0000_0000_0000 <= self.x - other.x <= 0x2000_0000_0000_0000,
            -0x2000_0000_0000_0000 <= self.y - other.y <= 0x2000_0000_0000_0000,
        ensures
            r.x == self.x - other.x,
            r.y == self.y - other.y,
    {
        Vec2 { x: self.x - other.x, y: self.y - other.y }
    }
}

/// Squared length of a vector, exact.
pub open spec fn spec_len2(v: Vec2) -> int {
    v.x * v.x + v.y * v.y
}

/// The integer square root: the greatest `r` with `r * r <= n`.
pub open spec fn spec_isqrt(n: nat) -> nat
    decreases n,
{
    if n == 0 {
        0
    } else {
        let p = spec_isqrt((n - 1) as nat);
        if (p + 1) * (p + 1) <= n {
            p + 1
        } else {
            p
        }
    }
}

pub proof fn lemma_isqrt_bounds(n: nat)
    ensures
        spec_isqrt(n) * spec_isqrt(n) <= n,
        (spec_isqrt(n) + 1) * (spec_isqrt(n) + 1) > n,
    decreases n,
{
    if n == 0 {
        assert(spec_isqrt(n) == 0);
        assert(spec_isqrt(n) * spec_isqrt(n) <= n) by (nonlinear_arith)
            requires
                spec_isqrt(n) == 0 && n == 0,
        ;
        assert((spec_isqrt(n) + 1) * (spec_isqrt(n) + 1) > n) by (nonlinear_arith)
            requires
                spec_isqrt(n) == 0 && n == 0,
        ;
    } else {
        lemma_isqrt_bounds((n - 1) as nat);
        let p = spec_isqrt((n - 1) as nat);
        if (p + 1) * (p + 1) <= n {
            assert(spec_isqrt(n) == p + 1);
            assert((p + 2) * (p + 2) > (p + 1) * (p + 1)) by (nonlinear_arith)
                requires
                    p >= 0,
            ;
            assert((spec_isqrt(n) + 1) * (spec_isqrt(n) + 1) > n);
        } else {
            assert(spec_isqrt(n) == p);
            assert(spec_isqrt(n) * spec_isqrt(n) <= n);
            assert((spec_isqrt(n) + 1) * (spec_isqrt(n) + 1) > n);
        }
    }
}

pub fn isqrt(n: u64) -> (r: u64)
    ensures
        r == spec_isqrt(n as nat),
        r * r <= n,
{
    proof {
        lemma_isqrt_bounds(n as nat);
    }
    let mut lo: u64 = 0;
    let mut hi: u64 = 4_294_967_295;
    proof {
        assert((hi + 1) * (hi + 1) > n);
    }
    while lo < hi
        invariant
            lo <= hi <= 4_294_967_295,
            lo * lo <= n,
            (hi + 1) * (hi + 1) > n,
        decreases hi - lo,
    {
        let half = (hi - lo + 1) / 2;
        proof {
            vstd::arithmetic::div_mod::lemma_div_is_ordered(2, hi - lo + 1, 2);
            vstd::arithmetic::div_mod::lemma_div_is_ordered(hi - lo + 1, 2 * (hi - lo), 2);
            vstd::arithmetic::div_mod::lemma_div_multiples_vanish(hi - lo, 2);
            assert(2int / 2 == 1);
            assert(1 <= half <= hi - lo);
        }
        let mid = lo + half;
        proof {
            assert((mid as int) * (mid as int) < 0x1_0000_0000_0000_0000) by (nonlinear_arith)
                requires
                    0 <= mid <= 0xffff_ffff as u64,
            ;
        }
        if mid * mid <= n {
            lo = mid;
        } else {
            hi = mid - 1;
        }
    }
    proof {
        let s = spec_isqrt(n as nat);
        assert(lo == s) by {
            if lo < s {
                assert(s * s > (lo + 1) * (lo + 1) - 1) by (nonlinear_arith)
                    requires
                        lo + 1 <= s,
                        0 <= lo,
                ;
            }
            if lo > s {
                assert(lo * lo > (s + 1) * (s + 1) - 1) by (nonlinear_arith)
                    requires
                        s + 1 <= lo,
                        0 <= s,
                ;
            }
        };
    }
    lo
}

/// The length of a bounded vector, exact to one fixed-point step.
pub open spec fn spec_length(v: Vec2) -> int {
    spec_isqrt(spec_len2(v) as nat) as int
}

pub fn length(v: Vec2) -> (r: i64)
    requires
        -2 * FX_BOUND <= v.x <= 2 * FX_BOUND,
        -2 * FX_BOUND <= v.y <= 2 * FX_BOUND,
    ensures
        r == spec_length(v),
        0 <= r <= 3_000_000_000,
{
    proof {
        assert(0 <= v.x * v.x <= 4_000_000_000_000_000_000 && 0 <= v.y * v.y
            <= 4_000_000_000_000_000_000) by (nonlinear_arith)
            requires
                -2_000_000_000 <= v.x <= 2_000_000_000,
                -2_000_000_000 <= v.y <= 2_000_000_000,
        ;
        lemma_isqrt_bounds(spec_len2(v) as nat);
        assert(spec_isqrt(spec_len2(v) as nat) <= 3_000_000_000) by {
            if spec_isqrt(spec_len2(v) as nat) > 3_000_000_000 {
                let s = spec_isqrt(spec_len2(v) as nat);
                assert(s * s > 8_000_000_000_000_000_000) by (nonlinear_arith)
                    requires
                        s > 3_000_000_000,
                ;
            }
        };
    }
    let n = ((v.x as i128 * v.x as i128) + (v.y as i128 * v.y as i128)) as u64;
    isqrt(n) as i64
}

/// Horizontal component of the unit vector pointing the way `v` does
/// (zero when `v` is zero), in fixed-point thousandths.
pub open spec fn spec_unit_x(v: Vec2) -> int {
    if v.x == 0 && v.y == 0 {
        0
    } else {
        v.x * FX_ONE / spec_length(v)
    }
}

/// Vertical component of the unit vector pointing the way `v` does.
pub open spec fn spec_unit_y(v: Vec2) -> int {
    if v.x == 0 && v.y == 0 {
        0
    } else {
        v.y * FX_ONE / spec_length(v)
    }
}

/// Each component of the unit vector lies within one fixed-point unit.
pub proof fn lemma_unit_bounded(v: Vec2)
    requires
        -2 * FX_BOUND <= v.x <= 2 * FX_BOUND,
        -2 * FX_BOUND <= v.y <= 2 * FX_BOUND,
    ensures
        -FX_ONE <= spec_unit_x(v) <= FX_ONE,
        -FX_ONE <= spec_unit_y(v) <= FX_ONE,
{
    if !(v.x == 0 && v.y == 0) {
        let len = spec_length(v);
        assert(spec_len2(v) > 0) by (nonlinear_arith)
            requires
                !(v.x == 0 && v.y == 0),
        ;
        lemma_isqrt_bounds(spec_len2(v) as nat);
        assert(len >= 1);
        lemma_component_le_length(v.x as int, v.y as int);
        lemma_component_le_length(v.y as int, v.x as int);
        lemma_ratio_bounded(v.x as int, len);
        lemma_ratio_bounded(v.y as int, len);
    }
}

/// `|a| <= isqrt(a*a + b*b)`.
proof fn lemma_component_le_length(a: int, b: int)
    requires
        a * a + b * b > 0,
    ensures
        -spec_isqrt((a * a + b * b) as nat) <= a <= spec_isqrt((a * a + b * b) as nat),
{
    let n = (a * a + b * b) as nat;
    assert(n == a * a + b * b);
    let s = spec_isqrt(n);
    lemma_isqrt_bounds(n);
    assert(-(s as int) <= a <= s as int) by (nonlinear_arith)
        requires
            (s + 1) * (s + 1) > a * a + b * b,
            s >= 0,
    ;
}

/// `|a| <= len` gives `-1000 <= a * 1000 / len <= 1000` for positive `len`.
proof fn lemma_ratio_bounded(a: int, len: int)
    requires
        len >= 1,
        -len <= a <= len,
    ensures
        -FX_ONE <= a * FX_ONE / len <= FX_ONE,
{
    assert(-(len * 1000) <= a * 1000 <= len * 1000) by (nonlinear_arith)
        requires
            -len <= a <= len,
            len >= 1,
    ;
    vstd::arithmetic::div_mod::lemma_div_is_ordered(a * 1000, len * 1000, len);
    vstd::arithmetic::div_mod::lemma_div_is_ordered(-(len * 1000), a * 1000, len);
    vstd::arithmetic::div_mod::lemma_div_multiples_vanish(1000, len);
    vstd::arithmetic::div_mod::lemma_div_multiples_vanish(-1000, len);
    assert(len * 1000 == 1000 * len) by (nonlinear_arith);
    assert(-(len * 1000) == (-1000) * len) by (nonlinear_arith);
    assert(len * (-1000) == (-1000) * len) by (nonlinear_arith);
}

/// Unit vector toward `v` (zero when `v` is zero): the fixed-point
/// counterpart of normalising a vector, rounding each component down.
pub fn unit_or_zero(v: Vec2) -> (r: Vec2)
    requires
        -2 * FX_BOUND <= v.x <= 2 * FX_BOUND,
        -2 * FX_BOUND <= v.y <= 2 * FX_BOUND,
    ensures
        r.x == spec_unit_x(v),
        r.y == spec_unit_y(v),
        -FX_ONE <= r.x <= FX_ONE,
        -FX_ONE <= r.y <= FX_ONE,
{
    if v.x == 0 && v.y == 0 {
        Vec2 { x: 0, y: 0 }
    } else {
        let len = length(v);
        proof {
            assert(spec_len2(v) > 0) by (nonlinear_arith)
                requires
                    !(v.x == 0 && v.y == 0),
            ;
            lemma_isqrt_bounds(spec_len2(v) as nat);
            if len == 0 {
                assert(spec_len2(v) < 1) by (nonlinear_arith)
                    requires
                        (spec_isqrt(spec_len2(v) as nat) + 1) * (spec_isqrt(spec_len2(v) as nat)
                            + 1) > spec_len2(v),
                        spec_isqrt(spec_len2(v) as nat) == 0,
                ;
            }
            lemma_unit_bounded(v);
        }
        Vec2 { x: div_floor(v.x * FX_ONE, len), y: div_floor(v.y * FX_ONE, len) }
    }
}

/// A rotation of the plane, held as the image of the unit x-axis vector:
/// cosine and sine of the angle, in fixed-point thousandths.
#[derive(Clone, Copy, Debug, PartialEq, Eq, Structural)]
pub struct Rot {
    pub c: i64,
    pub s: i64,
}

pub open spec fn rot_wf(r: Rot) -> bool {
    -FX_ONE <= r.c <= FX_ONE && -FX_ONE <= r.s <= FX_ONE
}

impl Rot {
    /// The identity rotation.
    pub fn identity() -> (r: Rot)
        ensures
            r == (Rot { c: FX_ONE as i64, s: 0 }),
    {
        Rot { c: FX_ONE, s: 0 }
    }

    /// The rotation by a binary angle.
    pub fn from_bam(a: u16) -> (r: Rot)
        ensures
            r.c == spec_cos(a as int),
            r.s == spec_sin(a as int),
            rot_wf(r),
    {
        Rot { c: cos_bam(a), s: sin_bam(a) }
    }
}

/// `|a| <= p` and `|b| <= q` bound the product: `|a * b| <= p * q`.
pub proof fn lemma_mul_bound(a: int, b: int, p: int, q: int)
    requires
        -p <= a <= p,
        -q <= b <= q,
        0 <= p,
        0 <= q,
    ensures
        -(p * q) <= a * b <= p * q,
{
    assert(-(p * q) <= a * b <= p * q) by (nonlinear_arith)
        requires
            -p <= a <= p,
            -q <= b <= q,
            0 <= p,
            0 <= q,
    ;
}

/// The vector `v` turned by `r`: the complex product `r * v`, each
/// component rounded down to a fixed-point step.
pub open spec fn spec_rotate_x(r: Rot, v: Vec2) -> int {
    (r.c * v.x - r.s * v.y) / (FX_ONE as int)
}

/// Vertical component of the vector `v` turned by `r`.
pub open spec fn spec_rotate_y(r: Rot, v: Vec2) -> int {
    (r.s * v.x + r.c * v.y) / (FX_ONE as int)
}

pub fn rotate(r: Rot, v: Vec2) -> (w: Vec2)
    requires
        rot_wf(r),
        vec2_bounded(v),
    ensures
        w.x == spec_rotate_x(r, v),
        w.y == spec_rotate_y(r, v),
        -2 * FX_BOUND <= w.x <= 2 * FX_BOUND,
        -2 * FX_BOUND <= w.y <= 2 * FX_BOUND,
{
    proof {
        lemma_rotate_bounded(r, v);
        lemma_mul_bound(r.c as int, v.x as int, 1000, 1_000_000_000);
        lemma_mul_bound(r.s as int, v.y as int, 1000, 1_000_000_000);
        lemma_mul_bound(r.s as int, v.x as int, 1000, 1_000_000_000);
        lemma_mul_bound(r.c as int, v.y as int, 1000, 1_000_000_000);
    }
    Vec2 {
        x: div_floor(r.c * v.x - r.s * v.y, FX_ONE),
        y: div_floor(r.s * v.x + r.c * v.y, FX_ONE),
    }
}

/// A turned bounded vector keeps within twice the coordinate bound.
pub proof fn lemma_rotate_bounded(r: Rot, v: Vec2)
    requires
        rot_wf(r),
        vec2_bounded(v),
    ensures
        -2 * FX_BOUND <= spec_rotate_x(r, v) <= 2 * FX_BOUND,
        -2 * FX_BOUND <= spec_rotate_y(r, v) <= 2 * FX_BOUND,
{
    let b = 2_000_000_000_000int;
    lemma_mul_bound(r.c as int, v.x as int, 1000, 1_000_000_000);
    lemma_mul_bound(r.s as int, v.y as int, 1000, 1_000_000_000);
    lemma_mul_bound(r.s as int, v.x as int, 1000, 1_000_000_000);
    lemma_mul_bound(r.c as int, v.y as int, 1000, 1_000_000_000);
    vstd::arithmetic::div_mod::lemma_div_is_ordered(r.c * v.x - r.s * v.y, b, 1000);
    vstd::arithmetic::div_mod::lemma_div_is_ordered(-b, r.c * v.x - r.s * v.y, 1000);
    vstd::arithmetic::div_mod::lemma_div_is_ordered(r.s * v.x + r.c * v.y, b, 1000);
    vstd::arithmetic::div_mod::lemma_div_is_ordered(-b, r.s * v.x + r.c * v.y, 1000);
    assert(b / 1000 == 2 * FX_BOUND);
    assert(-b / 1000 == -(2 * FX_BOUND));
}

/// The rotation carrying unit vector `a` onto unit vector `b`: the complex
/// quotient `b / a`, exact up to fixed-point rounding. With `a` and `b` on
/// the unit circle this is `cos` and `sin` of the angle between them, so a
/// near-zero angle yields the identity and an angle of a half turn yields
/// the half-turn rotation, with no special cases.
pub open spec fn spec_rot_between_c(a: Vec2, b: Vec2) -> int {
    (a.x * b.x + a.y * b.y) / (FX_ONE as int)
}

/// Sine part of the rotation carrying unit vector `a` onto unit vector `b`.
pub open spec fn spec_rot_between_s(a: Vec2, b: Vec2) -> int {
    (a.x * b.y - a.y * b.x) / (FX_ONE as int)
}

pub fn rot_between(a: Vec2, b: Vec2) -> (r: Rot)
    requires
        -FX_ONE <= a.x <= FX_ONE,
        -FX_ONE <= a.y <= FX_ONE,
        -FX_ONE <= b.x <= FX_ONE,
        -FX_ONE <= b.y <= FX_ONE,
    ensures
        r.c == spec_rot_between_c(a, b),
        r.s == spec_rot_between_s(a, b),
        -2 * FX_ONE <= r.c <= 2 * FX_ONE,
        -2 * FX_ONE <= r.s <= 2 * FX_ONE,
{
    proof {
        let m = 2_000_000int;
        lemma_mul_bound(a.x as int, b.x as int, 1000, 1000);
        lemma_mul_bound(a.y as int, b.y as int, 1000, 1000);
        lemma_mul_bound(a.x as int, b.y as int, 1000, 1000);
        lemma_mul_bound(a.y as int, b.x as int, 1000, 1000);
        vstd::arithmetic::div_mod::lemma_div_is_ordered(a.x * b.x + a.y * b.y, m, 1000);
        vstd::arithmetic::div_mod::lemma_div_is_ordered(-m, a.x * b.x + a.y * b.y, 1000);
        vstd::arithmetic::div_mod::lemma_div_is_ordered(a.x * b.y - a.y * b.x, m, 1000);
        vstd::arithmetic::div_mod::lemma_div_is_ordered(-m, a.x * b.y - a.y * b.x, 1000);
        assert(m / 1000 == 2000);
        assert(-m / 1000 == -2000);
    }
    Rot { c: div_floor(a.x * b.x + a.y * b.y, FX_ONE), s: div_floor(a.x * b.y - a.y * b.x, FX_ONE) }
}

/// Where and which way an entity stands: planar position, a depth layer
/// kept only for draw ordering, and a facing.
#[derive(Clone, Copy, Debug, PartialEq, Eq, Structural)]
pub struct Transform {
    pub pos: Vec2,
    pub layer: i64,
    pub rot: Rot,
}

pub open spec fn transform_wf(t: Transform) -> bool {
    vec2_bounded(t.pos) && rot_wf(t.rot)
}

impl Transform {
    /// The transform at the world origin, facing the identity way.
    pub open spec fn spec_origin() -> Transform {
        Transform { pos: Vec2 { x: 0, y: 0 }, layer: 0, rot: Rot { c: 1000, s: 0 } }
    }

    /// The transform at the world origin, facing the identity way.
    pub fn origin() -> (t: Transform)
        ensures
            t == Transform::spec_origin(),
            transform_wf(t),
    {
        Transform { pos: Vec2 { x: 0, y: 0 }, layer: 0, rot: Rot { c: FX_ONE, s: 0 } }
    }
}

} // verus!
