//! What the moving pieces share: the kinematic state of an entity, health,
//! the generic counter interface, and the per-tick movement step.

use vstd::prelude::*;
use crate::fixed::{div_floor, fx_bounded, fxb, FX_BOUND, FX_ONE};
use crate::geometry::{
    rotate, rot_wf, spec_rotate_x, spec_rotate_y, spec_unit_x, spec_unit_y, unit_or_zero,
    vec2_bounded, Rot, Vec2,
};

verus! {

/// World units per physics unit: velocities handed to the physics
/// collaborator are scaled by this factor.
pub const METRE: i64 = 20;

/// Longest simulation step accepted, in milliseconds.
pub const DT_BOUND: u64 = 1_000_000;

/// A label for an entity, shown by UI collaborators.
#[derive(Clone, Copy, Debug, Default)]
pub struct Name {
    pub label: Option<&'static str>,
}

/// The top-level screens of the game.
#[derive(Clone, Copy, Debug, PartialEq, Eq, Structural, Default)]
pub enum GameState {
    #[default]
    Menu,
    Paused,
    GameOver,
    Gameplay,
    GameWon,
}

/// The stages within the gameplay screen.
#[derive(Clone, Copy, Debug, PartialEq, Eq, Structural, Default)]
pub enum GameplayState {
    Loading,
    Playing,
    #[default]
    Idle,
}

/// The best score seen so far.
#[derive(Clone, Copy, Debug, PartialEq, Eq, Structural, Default)]
pub struct HighScore(pub u64);

/// Global options: the audio volume (fixed-point thousandths, clamped to
/// [0, 1]) and whether the focus key's meaning is inverted.
#[derive(Clone, Copy, Debug, PartialEq, Eq, Structural)]
pub struct GameOptions {
    volume: i64,
    invert_focus: bool,
}

impl GameOptions {
    pub closed spec fn spec_volume(self) -> i64 {
        self.volume
    }

    pub closed spec fn spec_focus(self) -> bool {
        self.invert_focus
    }

    /// Set the volume; writes clamp to [0, 1].
    pub fn set_volume(&mut self, volume: i64)
        ensures
            final(self).spec_volume() == if volume >= FX_ONE {
                FX_ONE as int
            } else if volume <= 0 {
                0int
            } else {
                volume as int
            },
            final(self).spec_focus() == old(self).spec_focus(),
    {
        if volume >= FX_ONE {
            self.volume = FX_ONE;
        } else if volume <= 0 {
            self.volume = 0;
        } else {
            self.volume = volume;
        }
    }

    pub fn get_volume(&self) -> (v: i64)
        ensures
            v == self.spec_volume(),
    {
        self.volume
    }

    /// Flip the meaning of the focus key.
    pub fn set_invert_focus(&mut self)
        ensures
            final(self).spec_focus() == !old(self).spec_focus(),
            final(self).spec_volume() == old(self).spec_volume(),
    {
        self.invert_focus = !self.invert_focus;
    }

    pub fn get_focus(&self) -> (f: bool)
        ensures
            f == self.spec_focus(),
    {
        self.invert_focus
    }
}

impl Default for GameOptions {
    /// Half volume, focus key not inverted.
    fn default() -> (o: GameOptions)
        ensures
            o.spec_volume() == 500,
            !o.spec_focus(),
    {
        GameOptions { volume: 500, invert_focus: false }
    }
}

/// The shared face of every numeric gameplay counter. What a counter asks
/// of an addition or subtraction (usually: that it not overflow) is the
/// counter's own to say, through the two precondition hooks.
pub trait Counter {
    type Data;

    /// When an addition of `n` is allowed.
    spec fn add_req(&self, n: Self::Data) -> bool;

    /// When a subtraction of `n` is allowed.
    spec fn sub_req(&self, n: Self::Data) -> bool;

    fn set(&mut self, n: Self::Data);

    fn get(&self) -> Self::Data;

    fn add(&mut self, n: Self::Data)
        requires
            old(self).add_req(n),
    ;

    fn subtract(&mut self, n: Self::Data)
        requires
            old(self).sub_req(n),
    ;
}

/// Kinematic state of an entity: world-frame velocity and acceleration,
/// and, when `local` is set, a second pair expressed in the entity's own
/// frame and turned into world space by its facing every step.
#[derive(Clone, Copy, Debug, PartialEq, Eq, Structural)]
pub struct Movement {
    pub velocity: Vec2,
    pub acceleration: Vec2,
    pub local: bool,
    pub v_local: Vec2,
    pub a_local: Vec2,
}

pub open spec fn movement_bounded(m: Movement) -> bool {
    &&& vec2_bounded(m.velocity)
    &&& vec2_bounded(m.acceleration)
    &&& vec2_bounded(m.v_local)
    &&& vec2_bounded(m.a_local)
}

impl Movement {
    pub fn new(velocity: Vec2, acceleration: Vec2, local: bool, v_local: Vec2, a_local: Vec2) -> (
        m: Movement)
        ensures
            m == (Movement { velocity, acceleration, local, v_local, a_local }),
    {
        Movement { velocity, acceleration, local, v_local, a_local }
    }

    /// Movement with only world-frame components set.
    pub fn absolute(velocity: Vec2, acceleration: Vec2) -> (m: Movement)
        ensures
            m == (Movement {
                velocity,
                acceleration,
                local: false,
                v_local: Vec2 { x: 0, y: 0 },
                a_local: Vec2 { x: 0, y: 0 },
            }),
    {
        Movement {
            velocity,
            acceleration,
            local: false,
            v_local: Vec2 { x: 0, y: 0 },
            a_local: Vec2 { x: 0, y: 0 },
        }
    }

    /// Movement with only entity-frame components set.
    pub fn relative(velocity: Vec2, acceleration: Vec2) -> (m: Movement)
        ensures
            m == (Movement {
                velocity: Vec2 { x: 0, y: 0 },
                acceleration: Vec2 { x: 0, y: 0 },
                local: true,
                v_local: velocity,
                a_local: acceleration,
            }),
    {
        Movement {
            velocity: Vec2 { x: 0, y: 0 },
            acceleration: Vec2 { x: 0, y: 0 },
            local: true,
            v_local: velocity,
            a_local: acceleration,
        }
    }

    /// All-zero movement, in the entity's own frame.
    pub open spec fn spec_zero() -> Movement {
        Movement {
            velocity: Vec2 { x: 0, y: 0 },
            acceleration: Vec2 { x: 0, y: 0 },
            local: true,
            v_local: Vec2 { x: 0, y: 0 },
            a_local: Vec2 { x: 0, y: 0 },
        }
    }

    /// All-zero movement, in the entity's own frame.
    pub fn zero() -> (m: Movement)
        ensures
            m == Movement::spec_zero(),
            movement_bounded(m),
    {
        Movement {
            velocity: Vec2 { x: 0, y: 0 },
            acceleration: Vec2 { x: 0, y: 0 },
            local: true,
            v_local: Vec2 { x: 0, y: 0 },
            a_local: Vec2 { x: 0, y: 0 },
        }
    }
}

/// Health of a damageable entity, in fixed-point thousandths of a point.
/// Only the damage path keeps `current` within bounds; a constructor may
/// start it above `total`.
#[derive(Clone, Copy, Debug, PartialEq, Eq, Structural)]
pub struct Health {
    pub total: i64,
    pub current: i64,
}

impl Health {
    pub fn new(max_health: i64, starting_health: Option<i64>) -> (h: Health)
        ensures
            h.total == max_health,
            match starting_health {
                Some(c) => h.current == c,
                None => h.current == max_health,
            },
    {
        match starting_health {
            Some(current) => Health { total: max_health, current },
            None => Health { total: max_health, current: max_health },
        }
    }
}

/// One step of velocity integration: `v` plus `a` scaled by `dt`
/// milliseconds, rounded down to a fixed-point step.
pub open spec fn spec_integrate(v: int, a: int, dt: int) -> int {
    v + a * dt / (FX_ONE as int)
}

fn integrate(v: i64, a: i64, dt: u64) -> (r: i64)
    requires
        fx_bounded(v),
        fx_bounded(a),
        dt <= DT_BOUND,
    ensures
        r == spec_integrate(v as int, a as int, dt as int),
{
    proof {
        crate::geometry::lemma_mul_bound(a as int, dt as int, 1_000_000_000, 1_000_000);
        vstd::arithmetic::div_mod::lemma_div_is_ordered(
            a as int * (dt as int),
            1_000_000_000_000_000,
            1000,
        );
        vstd::arithmetic::div_mod::lemma_div_is_ordered(
            -1_000_000_000_000_000,
            a as int * (dt as int),
            1000,
        );
    }
    v + div_floor(a * (dt as i64), FX_ONE)
}

/// Advance one entity's kinematic state by `dt` milliseconds and give the
/// linear velocity to hand to the physics collaborator: entity-frame
/// velocity (integrated and turned into world space by the facing, when
/// `local` is set) plus world-frame velocity (integrated), scaled to
/// physics units.
pub fn move_object(movement: &mut Movement, facing: Rot, dt: u64) -> (linvel: Vec2)
    requires
        movement_bounded(*old(movement)),
        rot_wf(facing),
        dt <= DT_BOUND,
        fxb(spec_integrate(old(movement).v_local.x as int, old(movement).a_local.x as int, dt as int)),
        fxb(spec_integrate(old(movement).v_local.y as int, old(movement).a_local.y as int, dt as int)),
        fxb(spec_integrate(old(movement).velocity.x as int, old(movement).acceleration.x as int, dt as int)),
        fxb(spec_integrate(old(movement).velocity.y as int, old(movement).acceleration.y as int, dt as int)),
    ensures
        final(movement).acceleration == old(movement).acceleration,
        final(movement).a_local == old(movement).a_local,
        final(movement).local == old(movement).local,
        final(movement).velocity.x == spec_integrate(
            old(movement).velocity.x as int,
            old(movement).acceleration.x as int,
            dt as int,
        ),
        final(movement).velocity.y == spec_integrate(
            old(movement).velocity.y as int,
            old(movement).acceleration.y as int,
            dt as int,
        ),
        final(movement).v_local == if old(movement).local {
            Vec2 {
                x: spec_integrate(
                    old(movement).v_local.x as int,
                    old(movement).a_local.x as int,
                    dt as int,
                ) as i64,
                y: spec_integrate(
                    old(movement).v_local.y as int,
                    old(movement).a_local.y as int,
                    dt as int,
                ) as i64,
            }
        } else {
            old(movement).v_local
        },
        linvel.x == METRE * ((if old(movement).local {
            spec_rotate_x(facing, final(movement).v_local)
        } else {
            0int
        }) + final(movement).velocity.x),
        linvel.y == METRE * ((if old(movement).local {
            spec_rotate_y(facing, final(movement).v_local)
        } else {
            0int
        }) + final(movement).velocity.y),
{
    let mut dv = Vec2 { x: 0, y: 0 };

    if movement.local {
        movement.v_local = Vec2 {
            x: integrate(movement.v_local.x, movement.a_local.x, dt),
            y: integrate(movement.v_local.y, movement.a_local.y, dt),
        };
        dv = rotate(facing, movement.v_local);
    }

    movement.velocity = Vec2 {
        x: integrate(movement.velocity.x, movement.acceleration.x, dt),
        y: integrate(movement.velocity.y, movement.acceleration.y, dt),
    };
    dv = Vec2 { x: dv.x + movement.velocity.x, y: dv.y + movement.velocity.y };

    Vec2 { x: METRE * dv.x, y: METRE * dv.y }
}

/// Interpolate between two points: `t` is in fixed-point thousandths, so
/// half a unit lands on the midpoint.
pub fn lerp(point1: Vec2, point2: Vec2, t: i64) -> (r: Vec2)
    requires
        vec2_bounded(point1),
        vec2_bounded(point2),
        0 <= t <= FX_ONE,
    ensures
        r.x == point1.x + (point2.x - point1.x) * t / (FX_ONE as int),
        r.y == point1.y + (point2.y - point1.y) * t / (FX_ONE as int),
{
    proof {
        crate::geometry::lemma_mul_bound(
            (point2.x - point1.x) as int,
            t as int,
            2_000_000_000,
            1000,
        );
        crate::geometry::lemma_mul_bound(
            (point2.y - point1.y) as int,
            t as int,
            2_000_000_000,
            1000,
        );
        vstd::arithmetic::div_mod::lemma_div_is_ordered(
            (point2.x - point1.x) * (t as int),
            2_000_000_000_000,
            1000,
        );
        vstd::arithmetic::div_mod::lemma_div_is_ordered(
            -2_000_000_000_000,
            (point2.x - point1.x) * (t as int),
            1000,
        );
        vstd::arithmetic::div_mod::lemma_div_is_ordered(
            (point2.y - point1.y) * (t as int),
            2_000_000_000_000,
            1000,
        );
        vstd::arithmetic::div_mod::lemma_div_is_ordered(
            -2_000_000_000_000,
            (point2.y - point1.y) * (t as int),
            1000,
        );
    }
    Vec2 {
        x: point1.x + div_floor((point2.x - point1.x) * t, FX_ONE),
        y: point1.y + div_floor((point2.y - point1.y) * t, FX_ONE),
    }
}

/// The difference of two position vectors, as a value (the coordinates
/// must be within the fixed-point range for it to mean the difference).
pub open spec fn spec_vsub(a: Vec2, b: Vec2) -> Vec2 {
    Vec2 { x: (a.x - b.x) as i64, y: (a.y - b.y) as i64 }
}

/// Point an entity straight at a target: its velocity (or, in
/// acceleration mode, its acceleration) becomes `strength` along the unit
/// direction from the entity to the target; a zero displacement gives a
/// zero vector.
pub fn magnetise_to(
    entity_movement: &mut Movement,
    entity_pos: Vec2,
    target_pos: Vec2,
    strength: i64,
    accel_mode: bool,
)
    requires
        fxb(target_pos.x - entity_pos.x),
        fxb(target_pos.y - entity_pos.y),
        0 <= strength <= FX_BOUND,
    ensures
        final(entity_movement).local == old(entity_movement).local,
        final(entity_movement).v_local == old(entity_movement).v_local,
        final(entity_movement).a_local == old(entity_movement).a_local,
        !accel_mode ==> {
            &&& final(entity_movement).acceleration == old(entity_movement).acceleration
            &&& final(entity_movement).velocity.x == strength * spec_unit_x(
                spec_vsub(target_pos, entity_pos),
            ) / (FX_ONE as int)
            &&& final(entity_movement).velocity.y == strength * spec_unit_y(
                spec_vsub(target_pos, entity_pos),
            ) / (FX_ONE as int)
        },
        accel_mode ==> {
            &&& final(entity_movement).velocity == old(entity_movement).velocity
            &&& final(entity_movement).acceleration.x == strength * spec_unit_x(
                spec_vsub(target_pos, entity_pos),
            ) / (FX_ONE as int)
            &&& final(entity_movement).acceleration.y == strength * spec_unit_y(
                spec_vsub(target_pos, entity_pos),
            ) / (FX_ONE as int)
        },
{
    let displacement = Vec2 { x: target_pos.x - entity_pos.x, y: target_pos.y - entity_pos.y };
    let direction = unit_or_zero(displacement);
    proof {
        crate::geometry::lemma_mul_bound(strength as int, direction.x as int, 1_000_000_000, 1000);
        crate::geometry::lemma_mul_bound(strength as int, direction.y as int, 1_000_000_000, 1000);
    }
    let value = Vec2 {
        x: div_floor(strength * direction.x, FX_ONE),
        y: div_floor(strength * direction.y, FX_ONE),
    };
    if accel_mode {
        entity_movement.acceleration = value;
    } else {
        entity_movement.velocity = value;
    }
}

} // verus!
