//! Formations: the parametric rule mapping an index within a group of
//! bullets (or enemies) to its spawn position and facing.

use vstd::prelude::*;
use vstd::pervasive::unreached;
use crate::fixed::{div_floor, fx_bounded, mod_euclid, FX_BOUND, FX_ONE};
use crate::geometry::{
    lemma_mul_bound, spec_unit_x, spec_unit_y, transform_wf, unit_or_zero, Rot, Transform, Vec2,
};
use crate::trig::{cos_bam, sin_bam, spec_cos, spec_sin, FULL_TURN};

verus! {

#[derive(Clone, Copy, Debug, PartialEq, Eq, Structural)]
pub enum FormationShape {
    /// Needs a radius: points spread evenly around a circle, facing
    /// outward.
    Circular,
    /// Needs a radius, an amplitude and a frequency: a pendulum swing
    /// hanging below the origin. Meant for small amplitudes.
    Harmonic,
    /// Needs a target and the entity size: a chain from the origin toward
    /// the target.
    Linear,
    /// Needs a target: a single point one unit from the origin toward the
    /// target.
    Positional,
}

/// Parameters of a formation. Every field a kind requires must be present
/// when a transform is generated; using a formation without them is a
/// construction bug, ruled out by precondition.
#[derive(Clone, Copy, Debug)]
pub struct Formation {
    pub kind: FormationShape,
    /// Circular only: draw the angle at random instead of by index.
    pub randomised: bool,
    pub ratio: Option<i64>,
    pub radius: Option<i64>,
    pub amplitude: Option<i64>,
    pub frequency: Option<i64>,
    pub target: Option<Transform>,
    pub entity_size: Option<Vec2>,
}

impl Formation {
    /// The parameters the formation's kind requires are present and small
    /// enough for exact fixed-point evaluation.
    pub open spec fn wf(self) -> bool {
        match self.kind {
            FormationShape::Circular => {
                &&& self.radius is Some
                &&& 0 <= self.radius.unwrap() <= FX_BOUND
            },
            FormationShape::Harmonic => {
                &&& self.radius is Some
                &&& 1 <= self.radius.unwrap() <= FX_BOUND
                &&& self.amplitude is Some
                &&& fx_bounded(self.amplitude.unwrap())
                &&& self.frequency is Some
                &&& 0 <= self.frequency.unwrap() <= 1_000_000
            },
            FormationShape::Linear => {
                &&& self.target is Some
                &&& transform_wf(self.target.unwrap())
                &&& self.entity_size is Some
                &&& 0 <= self.entity_size.unwrap().x <= FX_BOUND
                &&& 0 <= self.entity_size.unwrap().y <= FX_BOUND
            },
            FormationShape::Positional => {
                &&& self.target is Some
                &&& transform_wf(self.target.unwrap())
            },
        }
    }

    pub fn circular(randomised: bool, radius: i64) -> (f: Formation)
        requires
            0 <= radius <= FX_BOUND,
        ensures
            f == (Formation {
                kind: FormationShape::Circular,
                randomised,
                ratio: None::<i64>,
                radius: Some(radius),
                amplitude: None::<i64>,
                frequency: None::<i64>,
                target: None::<Transform>,
                entity_size: None::<Vec2>,
            }),
            f.wf(),
    {
        Formation {
            kind: FormationShape::Circular,
            randomised,
            ratio: None,
            radius: Some(radius),
            amplitude: None,
            frequency: None,
            target: None,
            entity_size: None,
        }
    }

    pub fn harmonic(randomised: bool, radius: i64, amplitude: i64, frequency: i64) -> (f:
        Formation)
        requires
            1 <= radius <= FX_BOUND,
            fx_bounded(amplitude),
            0 <= frequency <= 1_000_000,
        ensures
            f == (Formation {
                kind: FormationShape::Harmonic,
                randomised,
                ratio: None::<i64>,
                radius: Some(radius),
                amplitude: Some(amplitude),
                frequency: Some(frequency),
                target: None::<Transform>,
                entity_size: None::<Vec2>,
            }),
            f.wf(),
    {
        Formation {
            kind: FormationShape::Harmonic,
            randomised,
            ratio: None,
            radius: Some(radius),
            amplitude: Some(amplitude),
            frequency: Some(frequency),
            target: None,
            entity_size: None,
        }
    }

    pub fn linear(target: Transform, entity_size: Vec2) -> (f: Formation)
        requires
            transform_wf(target),
            0 <= entity_size.x <= FX_BOUND,
            0 <= entity_size.y <= FX_BOUND,
        ensures
            f == (Formation {
                kind: FormationShape::Linear,
                randomised: false,
                ratio: None::<i64>,
                radius: None::<i64>,
                amplitude: None::<i64>,
                frequency: None::<i64>,
                target: Some(target),
                entity_size: Some(entity_size),
            }),
            f.wf(),
    {
        Formation {
            kind: FormationShape::Linear,
            randomised: false,
            ratio: None,
            radius: None,
            amplitude: None,
            frequency: None,
            target: Some(target),
            entity_size: Some(entity_size),
        }
    }

    pub fn positional(target: Transform) -> (f: Formation)
        requires
            transform_wf(target),
        ensures
            f == (Formation {
                kind: FormationShape::Positional,
                randomised: false,
                ratio: None::<i64>,
                radius: None::<i64>,
                amplitude: None::<i64>,
                frequency: None::<i64>,
                target: Some(target),
                entity_size: None::<Vec2>,
            }),
            f.wf(),
    {
        Formation {
            kind: FormationShape::Positional,
            randomised: false,
            ratio: None,
            radius: None,
            amplitude: None,
            frequency: None,
            target: Some(target),
            entity_size: None,
        }
    }

}

impl Default for Formation {
    /// A one-point circle of radius one unit: the formation a group has
    /// until told otherwise.
    fn default() -> (f: Formation)
        ensures
            f.kind == FormationShape::Circular,
            !f.randomised,
            f.radius == Some(FX_ONE as i64),
            f.wf(),
    {
        Formation::circular(false, FX_ONE)
    }
}

/// The binary angle of point `i` of `n` on the circle: `i/n` of a turn.
pub open spec fn spec_circ_angle(i: int, n: int) -> int {
    i * (FULL_TURN as int) / n
}

/// Point `i` of `n` on the circular formation, as (x, y, facing cosine,
/// facing sine): at angle `a` and distance `radius` from the origin,
/// facing outward along the radius.
pub open spec fn spec_circular(origin: Transform, radius: i64, a: int) -> (int, int, int, int) {
    (
        origin.pos.x + radius * spec_cos(a) / (FX_ONE as int),
        origin.pos.y + radius * spec_sin(a) / (FX_ONE as int),
        spec_cos(a),
        spec_sin(a),
    )
}

/// The swing phase of point `i` of `n`: the fraction `i/n` of the period,
/// scaled by the frequency, as a binary angle.
pub open spec fn spec_harm_phase(frequency: i64, i: int, n: int) -> int {
    (frequency * i * (FULL_TURN as int) / (n * (FX_ONE as int))) % (FULL_TURN as int)
}

/// The pendulum deflection for a phase: amplitude times the cosine of the
/// phase, read as an arc length and divided by the radius to give an angle
/// in thousandths of a radian, then brought to binary-angle steps (one
/// radian is 10430 steps, within rounding) and wrapped to one turn.
pub open spec fn spec_harm_theta(radius: i64, amplitude: i64, frequency: i64, i: int, n: int) -> int {
    let displacement = amplitude * spec_cos(spec_harm_phase(frequency, i, n)) / (FX_ONE as int);
    (displacement * (FX_ONE as int) / (radius as int) * 10430 / (FX_ONE as int)) % (
    FULL_TURN as int)
}

/// Point `i` of `n` on the harmonic formation: a pendulum bob hanging
/// below the origin, deflected by the swing angle, facing away from the
/// origin; the depth layer is dropped to zero.
pub open spec fn spec_harmonic(
    origin: Transform,
    radius: i64,
    amplitude: i64,
    frequency: i64,
    i: int,
    n: int,
) -> (int, int, int, int) {
    let theta = spec_harm_theta(radius, amplitude, frequency, i, n);
    (
        origin.pos.x + radius * spec_sin(theta) / (FX_ONE as int),
        origin.pos.y + radius * (-spec_cos(theta)) / (FX_ONE as int),
        -spec_cos(theta),
        -spec_sin(theta),
    )
}

/// The unit direction from the origin toward the formation's target.
pub open spec fn spec_dir_to(origin: Transform, target: Transform) -> Vec2 {
    crate::shared::spec_vsub(target.pos, origin.pos)
}

/// Point `i` of the linear formation: `i` entity-sizes from the origin
/// toward the target, facing the target (the facing turns the unit y-axis
/// onto the direction).
pub open spec fn spec_linear(origin: Transform, target: Transform, size: Vec2, i: int) -> (
    int,
    int,
    int,
    int,
) {
    let d = spec_dir_to(origin, target);
    (
        origin.pos.x + spec_unit_x(d) * size.x * i / (FX_ONE as int),
        origin.pos.y + spec_unit_y(d) * size.y * i / (FX_ONE as int),
        spec_unit_y(d),
        -spec_unit_x(d),
    )
}

/// The positional formation: one point, one unit from the origin toward
/// the target, facing the target.
pub open spec fn spec_positional(origin: Transform, target: Transform) -> (int, int, int, int) {
    let d = spec_dir_to(origin, target);
    (
        origin.pos.x + spec_unit_x(d),
        origin.pos.y + spec_unit_y(d),
        spec_unit_y(d),
        -spec_unit_x(d),
    )
}

/// Whether a transform is the given (x, y, cosine, sine) with the layer.
pub open spec fn matches_point(t: Transform, p: (int, int, int, int), layer: i64) -> bool {
    &&& t.pos.x == p.0
    &&& t.pos.y == p.1
    &&& t.rot.c == p.2
    &&& t.rot.s == p.3
    &&& t.layer == layer
}

/// Everything `Formation::transform` promises of its result: the point it
/// returns for index `i` of `n` from `origin`, by the formation's kind (a
/// randomised circular formation only lands on the circle, at some angle).
pub open spec fn transform_post(f: Formation, i: int, n: int, origin: Transform, t: Transform) -> bool {
    &&& (f.kind == FormationShape::Circular && !f.randomised ==> matches_point(
        t,
        spec_circular(origin, f.radius.unwrap(), spec_circ_angle(i, n)),
        origin.layer,
    ))
    &&& (f.kind == FormationShape::Circular && f.randomised ==> (exists|a: int|
        0 <= a < FULL_TURN && matches_point(
            t,
            spec_circular(origin, f.radius.unwrap(), a),
            origin.layer,
        )))
    &&& (f.kind == FormationShape::Harmonic ==> matches_point(
        t,
        spec_harmonic(origin, f.radius.unwrap(), f.amplitude.unwrap(), f.frequency.unwrap(), i, n),
        0,
    ))
    &&& (f.kind == FormationShape::Linear ==> matches_point(
        t,
        spec_linear(origin, f.target.unwrap(), f.entity_size.unwrap(), i),
        origin.layer,
    ))
    &&& (f.kind == FormationShape::Positional ==> matches_point(
        t,
        spec_positional(origin, f.target.unwrap()),
        origin.layer,
    ))
}

impl Formation {
    /// The spawn transform of point `i` of a group of `n`. A randomised
    /// circular formation draws its angle fresh on every call; everything
    /// else is a pure function of the parameters.
    pub fn transform(&self, i: u16, n: u16, origin: Transform) -> (t: Transform)
        requires
            self.wf(),
            transform_wf(origin),
            1 <= n,
            i < n,
        ensures
            transform_post(*self, i as int, n as int, origin, t),
    {
        match self.kind {
            FormationShape::Circular => {
                let radius = match self.radius {
                    Some(r) => r,
                    None => unreached(),
                };
                let a: u16 = if self.randomised {
                    crate::rng::rand_range_i64(0, FULL_TURN as i64) as u16
                } else {
                    proof {
                        lemma_circ_angle_range(i as int, n as int);
                    }
                    ((i as u32 * FULL_TURN) / (n as u32)) as u16
                };
                let c = cos_bam(a);
                let s = sin_bam(a);
                proof {
                    lemma_mul_bound(radius as int, c as int, 1_000_000_000, 1000);
                    lemma_mul_bound(radius as int, s as int, 1_000_000_000, 1000);
                    lemma_scaled_unit_in_fx(radius as int, c as int);
                    lemma_scaled_unit_in_fx(radius as int, s as int);
                }
                let t = Transform {
                    pos: Vec2 {
                        x: origin.pos.x + div_floor(radius * c, FX_ONE),
                        y: origin.pos.y + div_floor(radius * s, FX_ONE),
                    },
                    layer: origin.layer,
                    rot: Rot { c, s },
                };
                proof {
                    assert(matches_point(t, spec_circular(origin, radius, a as int), origin.layer));
                }
                t
            },
            FormationShape::Harmonic => {
                let radius = match self.radius {
                    Some(r) => r,
                    None => unreached(),
                };
                let amplitude = match self.amplitude {
                    Some(a) => a,
                    None => unreached(),
                };
                let frequency = match self.frequency {
                    Some(f) => f,
                    None => unreached(),
                };
                proof {
                    lemma_mul_bound(frequency as int, i as int, 1_000_000, 65535);
                    lemma_mul_bound(frequency as int * i as int, FULL_TURN as int, 65_535_000_000, 65536);
                    lemma_mul_bound(n as int, 1000, 65536, 1000);
                }
                let num = frequency * (i as i64) * (FULL_TURN as i64);
                let den = (n as i64) * (FX_ONE);
                let phase = mod_euclid(div_floor(num, den), FULL_TURN as i64) as u16;
                let cp = cos_bam(phase);
                proof {
                    lemma_mul_bound(amplitude as int, cp as int, 1_000_000_000, 1000);
                    lemma_scaled_unit_in_fx(amplitude as int, cp as int);
                }
                let displacement = div_floor(amplitude * cp, FX_ONE);
                let theta_mrad = div_floor(displacement * FX_ONE, radius);
                proof {
                    crate::fixed::lemma_div_magnitude(displacement * 1000, radius as int);
                    lemma_mul_bound(theta_mrad as int, 10430, 1_000_000_000_000, 10430);
                }
                let theta = mod_euclid(div_floor(theta_mrad * 10430, FX_ONE), FULL_TURN as i64)
                    as u16;
                let ct = cos_bam(theta);
                let st = sin_bam(theta);
                proof {
                    lemma_mul_bound(radius as int, st as int, 1_000_000_000, 1000);
                    lemma_mul_bound(radius as int, -(ct as int), 1_000_000_000, 1000);
                    lemma_scaled_unit_in_fx(radius as int, st as int);
                    lemma_scaled_unit_in_fx(radius as int, -(ct as int));
                }
                Transform {
                    pos: Vec2 {
                        x: origin.pos.x + div_floor(radius * st, FX_ONE),
                        y: origin.pos.y + div_floor(radius * (-ct), FX_ONE),
                    },
                    layer: 0,
                    rot: Rot { c: -ct, s: -st },
                }
            },
            FormationShape::Linear => {
                let target = match self.target {
                    Some(t) => t,
                    None => unreached(),
                };
                let size = match self.entity_size {
                    Some(s) => s,
                    None => unreached(),
                };
                let rel = Vec2 {
                    x: target.pos.x - origin.pos.x,
                    y: target.pos.y - origin.pos.y,
                };
                let dir = unit_or_zero(rel);
                proof {
                    lemma_mul_bound(dir.x as int, size.x as int, 1000, 1_000_000_000);
                    lemma_mul_bound(dir.x as int * size.x as int, i as int, 1_000_000_000_000, 65535);
                    lemma_mul_bound(dir.y as int, size.y as int, 1000, 1_000_000_000);
                    lemma_mul_bound(dir.y as int * size.y as int, i as int, 1_000_000_000_000, 65535);
                    vstd::arithmetic::div_mod::lemma_div_is_ordered(
                        dir.x as int * size.x as int * i as int,
                        0x1000_0000_0000_0000,
                        1000,
                    );
                    vstd::arithmetic::div_mod::lemma_div_is_ordered(
                        -0x1000_0000_0000_0000,
                        dir.x as int * size.x as int * i as int,
                        1000,
                    );
                    vstd::arithmetic::div_mod::lemma_div_is_ordered(
                        dir.y as int * size.y as int * i as int,
                        0x1000_0000_0000_0000,
                        1000,
                    );
                    vstd::arithmetic::div_mod::lemma_div_is_ordered(
                        -0x1000_0000_0000_0000,
                        dir.y as int * size.y as int * i as int,
                        1000,
                    );
                }
                Transform {
                    pos: Vec2 {
                        x: origin.pos.x + div_floor(dir.x * size.x * (i as i64), FX_ONE),
                        y: origin.pos.y + div_floor(dir.y * size.y * (i as i64), FX_ONE),
                    },
                    layer: origin.layer,
                    rot: Rot { c: dir.y, s: -dir.x },
                }
            },
            FormationShape::Positional => {
                let target = match self.target {
                    Some(t) => t,
                    None => unreached(),
                };
                let rel = Vec2 {
                    x: target.pos.x - origin.pos.x,
                    y: target.pos.y - origin.pos.y,
                };
                let dir = unit_or_zero(rel);
                Transform {
                    pos: Vec2 { x: origin.pos.x + dir.x, y: origin.pos.y + dir.y },
                    layer: origin.layer,
                    rot: Rot { c: dir.y, s: -dir.x },
                }
            },
        }
    }
}

/// The by-index angle stays within one turn.
proof fn lemma_circ_angle_range(i: int, n: int)
    requires
        1 <= n,
        0 <= i < n,
    ensures
        0 <= spec_circ_angle(i, n) < FULL_TURN,
{
    vstd::arithmetic::div_mod::lemma_div_pos_is_pos(i * (FULL_TURN as int), n);
    assert(i * (FULL_TURN as int) < n * (FULL_TURN as int)) by (nonlinear_arith)
        requires
            0 <= i < n,
    ;
    vstd::arithmetic::div_mod::lemma_multiply_divide_lt(
        i * (FULL_TURN as int),
        n,
        FULL_TURN as int,
    );
}

/// A radius-scaled sine or cosine keeps within the coordinate bound.
proof fn lemma_scaled_unit_in_fx(radius: int, u: int)
    requires
        -1_000_000_000_000 <= radius * u <= 1_000_000_000_000,
    ensures
        -1_000_000_000 <= radius * u / 1000 <= 1_000_000_000,
{
    vstd::arithmetic::div_mod::lemma_div_is_ordered(radius * u, 1_000_000_000_000, 1000);
    vstd::arithmetic::div_mod::lemma_div_is_ordered(-1_000_000_000_000, radius * u, 1000);
    assert(1_000_000_000_000int / 1000 == 1_000_000_000);
    assert((-1_000_000_000_000int) / 1000 == -1_000_000_000) by {
        vstd::arithmetic::div_mod::lemma_div_multiples_vanish(-1_000_000_000, 1000);
        assert(1000 * (-1_000_000_000) == -1_000_000_000_000int);
    };
}


} // verus!
