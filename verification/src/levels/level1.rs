//! Level one: slow foot soldiers firing full rings, and a boss swinging
//! pendulum volleys, rings and aimed chains.

use vstd::prelude::*;
use crate::bullet::{AttackPattern, Bullet, BulletGroup};
use crate::collisions::ColliderType;
use crate::enemy::{spawn_boss as boss_loadout, spawn_enemy, Attacks, BossSpawn, EnemySpawn};
use crate::formation::{Formation, FormationShape};
use crate::geometry::{Rot, Transform, Vec2};
use crate::levels::{spec_sine_drift, sine_drift, SpawnEnemyTimer};
use crate::shared::{Movement, Name};
use crate::timer::{Timer, TimerMode, TIME_BOUND};

verus! {

/// Whether a pattern is level one's foot-soldier attack: a full ring of
/// fifteen weak bullets every 0.8 seconds, released all at once, drifting
/// forward and accelerating.
pub open spec fn is_soldier_attack(p: AttackPattern) -> bool {
    &&& p.bullet_group.collider_type == ColliderType::EnemyBullet
    &&& p.bullet_group.number == 15
    &&& p.bullet_group.formation.kind == FormationShape::Circular
    &&& !p.bullet_group.formation.randomised
    &&& p.bullet_group.formation.radius == Some(20_000i64)
    &&& p.bullet_group.bullet.spec_damage() == 5000
    &&& p.bullet_group.bullet.spec_max() == 5000
    &&& p.movement == (Movement {
        velocity: Vec2 { x: 0, y: 0 },
        acceleration: Vec2 { x: 0, y: 0 },
        local: true,
        v_local: Vec2 { x: 0, y: 3000 },
        a_local: Vec2 { x: 0, y: 2000 },
    })
    &&& p.cd == Timer::spec_once(800)
    &&& p.icd is None
    &&& p.current_bullet == 0
}

/// Tick the arrival cadence and, when it completes, send in one foot
/// soldier at a random horizontal position along the top of the field
/// (anywhere in [-150, 150) whole units), restarting the cadence.
pub fn spawn_enemies(timer: &mut SpawnEnemyTimer, dt: u64) -> (spawned: Option<EnemySpawn>)
    requires
        old(timer).0.wf(),
        old(timer).0.mode is Once,
        dt <= TIME_BOUND,
    ensures
        final(timer).0.wf(),
        !old(timer).0.spec_tick_once(dt).spec_finished() ==> {
            &&& spawned is None
            &&& final(timer).0 == old(timer).0.spec_tick_once(dt)
        },
        old(timer).0.spec_tick_once(dt).spec_finished() ==> {
            &&& final(timer).0 == old(timer).0.spec_reset()
            &&& spawned is Some
            &&& ({
                let e = spawned.unwrap();
                &&& e.attacks.wf()
                &&& e.attacks.attacks@.len() == 1
                &&& is_soldier_attack(e.attacks.attacks@[0])
                &&& e.attacks.current_attack == 0
                &&& e.attacks.switch_timer == Timer::spec_once(10_000)
                &&& -150_000 <= e.transform.pos.x < 150_000
                &&& e.transform.pos.y == 300_000
                &&& e.health.current == 20_000
            })
        },
{
    timer.0.tick(dt);
    if !timer.0.finished() {
        return None;
    }
    let pattern = AttackPattern::new(
        BulletGroup {
            collider_type: ColliderType::EnemyBullet,
            number: 15,
            origin: Transform::origin(),
            formation: Formation::circular(false, 20_000),
            bullet: Bullet::new(5000, 5000),
        },
        Movement::new(
            Vec2 { x: 0, y: 0 },
            Vec2 { x: 0, y: 0 },
            true,
            Vec2 { x: 0, y: 3000 },
            Vec2 { x: 0, y: 2000 },
        ),
        Timer::new(800, TimerMode::Once),
        None,
    );
    let mut patterns: Vec<AttackPattern> = Vec::new();
    patterns.push(pattern);
    let attacks = Attacks::new(patterns, Timer::new(10_000, TimerMode::Once));
    let x = crate::rng::rand_range_i64(-150, 150) * 1000;
    let spawn_point = Transform {
        pos: Vec2 { x, y: 300_000 },
        layer: 200,
        rot: Rot { c: 1000, s: 0 },
    };
    timer.0.reset();
    Some(spawn_enemy(spawn_point, attacks))
}

/// Whether the three patterns are level one's boss loadout: a pendulum
/// volley, a ring, and an aimed chain, each with its own cadence.
pub open spec fn is_boss_loadout(ps: Seq<AttackPattern>) -> bool {
    &&& ps.len() == 3
    &&& ({
        let p = ps[0];
        &&& p.bullet_group.collider_type == ColliderType::EnemyBullet
        &&& p.bullet_group.number == 30
        &&& p.bullet_group.formation.kind == FormationShape::Harmonic
        &&& p.bullet_group.formation.radius == Some(50_000i64)
        &&& p.bullet_group.formation.amplitude == Some(20_000i64)
        &&& p.bullet_group.formation.frequency == Some(2000i64)
        &&& p.bullet_group.bullet.spec_damage() == 5000
        &&& p.bullet_group.bullet.spec_max() == 20_000
        &&& p.movement.local && p.movement.a_local == (Vec2 { x: 0i64, y: 6000i64 })
        &&& p.cd == Timer::spec_once(3000)
        &&& p.icd == Some(Timer::spec_once(100))
    })
    &&& ({
        let p = ps[1];
        &&& p.bullet_group.number == 30
        &&& p.bullet_group.formation.kind == FormationShape::Circular
        &&& !p.bullet_group.formation.randomised
        &&& p.bullet_group.formation.radius == Some(20_000i64)
        &&& p.movement.local && p.movement.v_local == (Vec2 { x: 0i64, y: 10_000i64 })
        &&& p.cd == Timer::spec_once(3000)
        &&& p.icd == Some(Timer::spec_once(100))
    })
    &&& ({
        let p = ps[2];
        &&& p.bullet_group.number == 5
        &&& p.bullet_group.formation.kind == FormationShape::Linear
        &&& p.movement.local && p.movement.v_local == (Vec2 { x: 0i64, y: 15_000i64 })
        &&& p.cd == Timer::spec_once(1200)
        &&& p.icd == Some(Timer::spec_once(60))
    })
}

/// Level one's boss, high on the right of the field.
pub fn spawn_boss() -> (b: BossSpawn)
    ensures
        b.attacks.wf(),
        is_boss_loadout(b.attacks.attacks@),
        b.attacks.current_attack == 0,
        b.attacks.switch_timer == Timer::spec_once(10_000),
        b.transform.pos == (Vec2 { x: 100_000i64, y: 100_000i64 }),
        b.health.current == 300_000,
{
    let mut patterns: Vec<AttackPattern> = Vec::new();
    patterns.push(
        AttackPattern::new(
            BulletGroup {
                collider_type: ColliderType::EnemyBullet,
                number: 30,
                origin: Transform::origin(),
                formation: Formation::harmonic(false, 50_000, 20_000, 2000),
                bullet: Bullet::new(5000, 20_000),
            },
            Movement::new(
                Vec2 { x: 0, y: 0 },
                Vec2 { x: 0, y: 0 },
                true,
                Vec2 { x: 0, y: 0 },
                Vec2 { x: 0, y: 6000 },
            ),
            Timer::new(3000, TimerMode::Once),
            Some(Timer::new(100, TimerMode::Once)),
        ),
    );
    patterns.push(
        AttackPattern::new(
            BulletGroup {
                collider_type: ColliderType::EnemyBullet,
                number: 30,
                origin: Transform::origin(),
                formation: Formation::circular(false, 20_000),
                bullet: Bullet::new(5000, 20_000),
            },
            Movement::new(
                Vec2 { x: 0, y: 0 },
                Vec2 { x: 0, y: 0 },
                true,
                Vec2 { x: 0, y: 10_000 },
                Vec2 { x: 0, y: 0 },
            ),
            Timer::new(3000, TimerMode::Once),
            Some(Timer::new(100, TimerMode::Once)),
        ),
    );
    patterns.push(
        AttackPattern::new(
            BulletGroup {
                collider_type: ColliderType::EnemyBullet,
                number: 5,
                origin: Transform::origin(),
                formation: Formation::linear(Transform::origin(), Vec2 { x: 0, y: 0 }),
                bullet: Bullet::new(5000, 20_000),
            },
            Movement::new(
                Vec2 { x: 0, y: 0 },
                Vec2 { x: 0, y: 0 },
                true,
                Vec2 { x: 0, y: 15_000 },
                Vec2 { x: 0, y: 0 },
            ),
            Timer::new(1200, TimerMode::Once),
            Some(Timer::new(60, TimerMode::Once)),
        ),
    );
    let attacks = Attacks::new(patterns, Timer::new(10_000, TimerMode::Once));
    let spawn_point = Transform {
        pos: Vec2 { x: 100_000, y: 100_000 },
        layer: 0,
        rot: Rot { c: 1000, s: 0 },
    };
    let name = Name { label: Some("Big Boss") };
    boss_loadout(name, spawn_point, attacks)
}

/// Sway foot soldier number `index` from side to side: two units of
/// amplitude at half a hertz, each enemy four radians out of phase with
/// the one before.
pub fn enemy_movement(movement: &mut Movement, elapsed_ms: u64, index: u16)
    requires
        elapsed_ms <= 100_000_000,
        index < 200,
    ensures
        final(movement).v_local.x == spec_sine_drift(
            2000,
            500,
            elapsed_ms,
            (14_000 + 4000 * index) as i64,
        ),
        final(movement).v_local.y == old(movement).v_local.y,
        final(movement).velocity == old(movement).velocity,
        final(movement).acceleration == old(movement).acceleration,
        final(movement).a_local == old(movement).a_local,
        final(movement).local == old(movement).local,
{
    let phase = 14_000 + 4000 * (index as i64);
    let sway = sine_drift(2000, 500, elapsed_ms, phase);
    movement.v_local = Vec2 { x: sway, y: movement.v_local.y };
}

/// Drift the boss from side to side: five units of amplitude at a tenth
/// of a hertz.
pub fn boss_movement(movement: &mut Movement, elapsed_ms: u64)
    requires
        elapsed_ms <= 100_000_000,
    ensures
        final(movement).v_local == (Vec2 {
            x: spec_sine_drift(5000, 100, elapsed_ms, 10_000) as i64,
            y: 0i64,
        }),
        final(movement).velocity == old(movement).velocity,
        final(movement).acceleration == old(movement).acceleration,
        final(movement).a_local == old(movement).a_local,
        final(movement).local == old(movement).local,
{
    let sway = sine_drift(5000, 100, elapsed_ms, 10_000);
    movement.v_local = Vec2 { x: sway, y: 0 };
}

} // verus!
