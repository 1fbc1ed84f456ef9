//! Level two: quicker arrivals firing tighter rings, and a boss spraying
//! dense rings and wide pendulum volleys while spinning upward.

use vstd::prelude::*;
use crate::bullet::{AttackPattern, Bullet, BulletGroup};
use crate::collisions::ColliderType;
use crate::enemy::{spawn_boss as boss_loadout, spawn_enemy, Attacks, BossSpawn, EnemySpawn};
use crate::formation::{Formation, FormationShape};
use crate::geometry::{Rot, Transform, Vec2};
use crate::levels::{spec_sine_drift, sine_drift, SpawnEnemyTimer};
use crate::shared::{Movement, Name};
use crate::timer::{Timer, TimerMode, TIME_BOUND};

verus! {

/// This level's arrival cadence: a fresh enemy every 1.1 seconds.
pub const SPAWN_PERIOD_MS: u64 = 1100;

/// Whether a pattern is level two's foot-soldier attack: a tight ring of
/// ten weak bullets every 0.8 seconds, decelerating as they climb.
pub open spec fn is_soldier_attack(p: AttackPattern) -> bool {
    &&& p.bullet_group.collider_type == ColliderType::EnemyBullet
    &&& p.bullet_group.number == 10
    &&& p.bullet_group.formation.kind == FormationShape::Circular
    &&& !p.bullet_group.formation.randomised
    &&& p.bullet_group.formation.radius == Some(10_000i64)
    &&& p.bullet_group.bullet.spec_damage() == 5000
    &&& p.bullet_group.bullet.spec_max() == 5000
    &&& p.movement == (Movement {
        velocity: Vec2 { x: 0, y: 0 },
        acceleration: Vec2 { x: 0, y: 0 },
        local: true,
        v_local: Vec2 { x: 0i64, y: 5000i64 },
        a_local: Vec2 { x: 0i64, y: -2500i64 },
    })
    &&& p.cd == Timer::spec_once(800)
    &&& p.icd is None
    &&& p.current_bullet == 0
}

/// The arrival timer brought to this level's period: elapsed time past
/// the new duration is dropped, so a cadence already run down completes
/// at once.
pub open spec fn spec_retuned(t: Timer) -> Timer {
    if t.duration_ms == SPAWN_PERIOD_MS {
        t
    } else {
        Timer {
            duration_ms: SPAWN_PERIOD_MS,
            elapsed_ms: if t.elapsed_ms <= SPAWN_PERIOD_MS {
                t.elapsed_ms
            } else {
                SPAWN_PERIOD_MS
            },
            mode: t.mode,
            wrapped: t.wrapped,
        }
    }
}

/// Retune the arrival cadence to this level's period, tick it and, when
/// it completes, send in one foot soldier at a random horizontal position
/// (anywhere in [-250, 250) whole units), restarting the cadence; short
/// of completion no enemy arrives and the cadence merely advances.
pub fn spawn_enemies(timer: &mut SpawnEnemyTimer, dt: u64) -> (spawned: Option<EnemySpawn>)
    requires
        old(timer).0.wf(),
        old(timer).0.mode is Once,
        dt <= TIME_BOUND,
    ensures
        final(timer).0.wf(),
        final(timer).0.duration_ms == SPAWN_PERIOD_MS,
        ({
            let retuned = spec_retuned(old(timer).0);
            &&& (!retuned.spec_tick_once(dt).spec_finished() ==> {
                &&& spawned is None
                &&& final(timer).0 == retuned.spec_tick_once(dt)
            })
            &&& (retuned.spec_tick_once(dt).spec_finished() ==> {
                &&& final(timer).0 == retuned.spec_reset()
                &&& spawned is Some
                &&& ({
                    let e = spawned.unwrap();
                    &&& e.attacks.wf()
                    &&& e.attacks.attacks@.len() == 1
                    &&& is_soldier_attack(e.attacks.attacks@[0])
                    &&& e.attacks.current_attack == 0
                    &&& e.attacks.switch_timer == Timer::spec_once(10_000)
                    &&& -250_000 <= e.transform.pos.x < 250_000
                    &&& e.transform.pos.y == 330_000
                    &&& e.health.current == 20_000
                })
            })
        }),
{
    if timer.0.duration() != SPAWN_PERIOD_MS {
        timer.0.set_duration(SPAWN_PERIOD_MS);
    }
    proof {
        assert(timer.0 == spec_retuned(old(timer).0));
    }
    timer.0.tick(dt);
    if !timer.0.finished() {
        return None;
    }
    let pattern = AttackPattern::new(
        BulletGroup {
            collider_type: ColliderType::EnemyBullet,
            number: 10,
            origin: Transform::origin(),
            formation: Formation::circular(false, 10_000),
            bullet: Bullet::new(5000, 5000),
        },
        Movement::relative(Vec2 { x: 0, y: 5000 }, Vec2 { x: 0, y: -2500 }),
        Timer::new(800, TimerMode::Once),
        None,
    );
    let mut patterns: Vec<AttackPattern> = Vec::new();
    patterns.push(pattern);
    let attacks = Attacks::new(patterns, Timer::new(10_000, TimerMode::Once));
    let x = crate::rng::rand_range_i64(-250, 250) * 1000;
    let spawn_point = Transform {
        pos: Vec2 { x, y: 330_000 },
        layer: 200,
        rot: Rot { c: 1000, s: 0 },
    };
    timer.0.reset();
    Some(spawn_enemy(spawn_point, attacks))
}

/// Whether the two patterns are level two's boss loadout: a dense
/// machine-gunned ring, and a wide pendulum volley.
pub open spec fn is_boss_loadout(ps: Seq<AttackPattern>) -> bool {
    &&& ps.len() == 2
    &&& ({
        let p = ps[0];
        &&& p.bullet_group.number == 45
        &&& p.bullet_group.formation.kind == FormationShape::Circular
        &&& !p.bullet_group.formation.randomised
        &&& p.bullet_group.formation.radius == Some(10_000i64)
        &&& p.bullet_group.bullet.spec_damage() == 5000
        &&& p.bullet_group.bullet.spec_max() == 20_000
        &&& p.movement.local && p.movement.v_local == (Vec2 { x: 0i64, y: 12_500i64 })
        &&& p.movement.a_local == (Vec2 { x: 0i64, y: -4000i64 })
        &&& p.cd == Timer::spec_once(360)
        &&& p.icd == Some(Timer::spec_once(8))
    })
    &&& ({
        let p = ps[1];
        &&& p.bullet_group.number == 35
        &&& p.bullet_group.formation.kind == FormationShape::Harmonic
        &&& p.bullet_group.formation.radius == Some(20_000i64)
        &&& p.bullet_group.formation.amplitude == Some(30_000i64)
        &&& p.bullet_group.formation.frequency == Some(4000i64)
        &&& p.movement.local && p.movement.v_local == (Vec2 { x: 0i64, y: 10_000i64 })
        &&& p.cd == Timer::spec_once(6000)
        &&& p.icd == Some(Timer::spec_once(100))
    })
}

/// Level two's boss, above the middle of the field.
pub fn spawn_boss() -> (b: BossSpawn)
    ensures
        b.attacks.wf(),
        is_boss_loadout(b.attacks.attacks@),
        b.attacks.current_attack == 0,
        b.attacks.switch_timer == Timer::spec_once(10_000),
        b.transform.pos == (Vec2 { x: 0i64, y: 80_000i64 }),
        b.health.current == 300_000,
{
    let mut patterns: Vec<AttackPattern> = Vec::new();
    patterns.push(
        AttackPattern::new(
            BulletGroup {
                collider_type: ColliderType::EnemyBullet,
                number: 45,
                origin: Transform::origin(),
                formation: Formation::circular(false, 10_000),
                bullet: Bullet::new(5000, 20_000),
            },
            Movement::new(
                Vec2 { x: 0, y: 0 },
                Vec2 { x: 0, y: 0 },
                true,
                Vec2 { x: 0, y: 12_500 },
                Vec2 { x: 0, y: -4000 },
            ),
            Timer::new(360, TimerMode::Once),
            Some(Timer::new(8, TimerMode::Once)),
        ),
    );
    patterns.push(
        AttackPattern::new(
            BulletGroup {
                collider_type: ColliderType::EnemyBullet,
                number: 35,
                origin: Transform::origin(),
                formation: Formation::harmonic(false, 20_000, 30_000, 4000),
                bullet: Bullet::new(5000, 20_000),
            },
            Movement::new(
                Vec2 { x: 0, y: 0 },
                Vec2 { x: 0, y: 0 },
                true,
                Vec2 { x: 0, y: 10_000 },
                Vec2 { x: 0, y: 0 },
            ),
            Timer::new(6000, TimerMode::Once),
            Some(Timer::new(100, TimerMode::Once)),
        ),
    );
    let attacks = Attacks::new(patterns, Timer::new(10_000, TimerMode::Once));
    let spawn_point = Transform {
        pos: Vec2 { x: 0, y: 80_000 },
        layer: 0,
        rot: Rot { c: 1000, s: 0 },
    };
    let name = Name { label: Some("Bigger Boss") };
    boss_loadout(name, spawn_point, attacks)
}

/// Sway foot soldier number `index` from side to side: four units of
/// amplitude at three tenths of a hertz, each enemy four radians out of
/// phase with the one before.
pub fn enemy_movement(movement: &mut Movement, elapsed_ms: u64, index: u16)
    requires
        elapsed_ms <= 100_000_000,
        index < 200,
    ensures
        final(movement).v_local.x == spec_sine_drift(
            4000,
            300,
            elapsed_ms,
            (26_000 + 4000 * index) as i64,
        ),
        final(movement).v_local.y == old(movement).v_local.y,
        final(movement).velocity == old(movement).velocity,
        final(movement).acceleration == old(movement).acceleration,
        final(movement).a_local == old(movement).a_local,
        final(movement).local == old(movement).local,
{
    let phase = 26_000 + 4000 * (index as i64);
    let sway = sine_drift(4000, 300, elapsed_ms, phase);
    movement.v_local = Vec2 { x: sway, y: movement.v_local.y };
}

/// Push the boss steadily upward in its own frame and spin it: the
/// returned angular velocity (thousandths of a radian per second) goes to
/// the physics collaborator.
pub fn boss_movement(movement: &mut Movement) -> (angvel: i64)
    ensures
        final(movement).v_local == (Vec2 { x: 0i64, y: 5000i64 }),
        angvel == 2000,
        final(movement).velocity == old(movement).velocity,
        final(movement).acceleration == old(movement).acceleration,
        final(movement).a_local == old(movement).a_local,
        final(movement).local == old(movement).local,
{
    movement.v_local = Vec2 { x: 0, y: 5000 };
    2000
}

} // verus!
