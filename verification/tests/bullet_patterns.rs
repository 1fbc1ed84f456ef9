//! The bullet envelope, the attack-pattern cadence and the enemy attack
//! step, exercised on concrete values.

use barrage::bullet::{AttackPattern, Bullet, BulletGroup, PatternAction};
use barrage::collisions::ColliderType;
use barrage::enemy::{enemy_attack, Attacks};
use barrage::formation::Formation;
use barrage::geometry::{Rot, Transform, Vec2};
use barrage::shared::Movement;
use barrage::timer::{Timer, TimerMode};

fn ring_pattern(count: u16, cd_ms: u64, icd_ms: Option<u64>) -> AttackPattern {
    AttackPattern::new(
        BulletGroup {
            collider_type: ColliderType::EnemyBullet,
            number: count,
            origin: Transform::origin(),
            formation: Formation::circular(false, 20_000),
            bullet: Bullet::new(5000, 5000),
        },
        Movement::zero(),
        Timer::new(cd_ms, TimerMode::Once),
        icd_ms.map(|ms| Timer::new(ms, TimerMode::Once)),
    )
}

#[test]
fn bullet_damage_never_exceeds_maximum() {
    let mut b = Bullet::new(5000, 2000);
    assert_eq!(b.get_damage(), 2000);
    assert_eq!(b.get_max(), 2000);

    b.set_damage(999_999);
    assert!(b.get_damage() <= b.get_max());
    assert_eq!(b.get_damage(), 2000);

    b.set_max(1000);
    assert!(b.get_damage() <= b.get_max());
    assert_eq!(b.get_damage(), 1000);

    b.set(3000, 2500);
    assert!(b.get_damage() <= b.get_max());
    assert_eq!(b.get_damage(), 2500);
    assert_eq!(b.get_max(), 2500);

    b.set_max(400_000);
    assert!(b.get_damage() <= b.get_max());
    assert_eq!(b.get_damage(), 2500);
    assert_eq!(b.get_max(), 400_000);
}

#[test]
fn group_pattern_fires_once_per_outer_cooldown() {
    // No inner cooldown: the whole group goes at once, at most once per
    // 800 milliseconds of ticking.
    let mut p = ring_pattern(15, 800, None);

    assert!(matches!(p.step(800), PatternAction::SpawnAll));

    // A full cooldown's worth of small ticks may fire at most once more.
    let mut fires = 0;
    for _ in 0..8 {
        if matches!(p.step(100), PatternAction::SpawnAll) {
            fires += 1;
        }
    }
    assert_eq!(fires, 1);

    // And the shot is atomic: the whole group materialises together.
    let spawns = p.bullet_group.spawn_all(p.movement);
    assert_eq!(spawns.len(), 15);
}

#[test]
fn inner_cooldown_paces_single_bullets() {
    // Inner cooldown of 100 ms, five bullets, outer cooldown far longer:
    // after 500 ms of ticking exactly five bullets went out, one per
    // hundred milliseconds, and the cursor rests at five.
    let mut p = ring_pattern(5, 10_000, Some(100));
    let mut spawned = Vec::new();
    for _ in 0..5 {
        match p.step(100) {
            PatternAction::SpawnOne(k) => spawned.push(k),
            other => panic!("expected a single bullet, got {:?}", other),
        }
    }
    assert_eq!(spawned, vec![0, 1, 2, 3, 4]);
    assert_eq!(p.current_bullet, 5);

    // Idle until the outer cooldown completes.
    assert!(matches!(p.step(100), PatternAction::Hold));
    assert_eq!(p.current_bullet, 5);
}

#[test]
fn inner_cooldown_holds_between_bullets() {
    let mut p = ring_pattern(5, 10_000, Some(100));
    assert!(matches!(p.step(60), PatternAction::Hold));
    assert!(matches!(p.step(60), PatternAction::SpawnOne(0)));
    assert!(matches!(p.step(60), PatternAction::Hold));
}

#[test]
fn enemy_attack_fires_group_and_advances_cycle() {
    let patterns = vec![ring_pattern(3, 800, None), ring_pattern(4, 800, None)];
    let mut attacks = Attacks::new(patterns, Timer::new(10_000, TimerMode::Once));
    let at = Transform {
        pos: Vec2 { x: 1000, y: 2000 },
        layer: 0,
        rot: Rot { c: 1000, s: 0 },
    };

    // One full cooldown: the current pattern releases all three bullets,
    // centred on the enemy.
    let spawns = enemy_attack(&mut attacks, at, None, false, 800);
    assert_eq!(spawns.len(), 3);
    for s in &spawns {
        assert_eq!(s.collider_type, ColliderType::EnemyBullet);
    }
    // The ring is centred on the firing enemy: radius 20 units.
    assert_eq!(spawns[0].transform.pos.x, 1000 + 20_000);
    assert_eq!(spawns[0].transform.pos.y, 2000);

    // The switch timer has not completed: still the first pattern.
    assert_eq!(attacks.current_attack, 0);

    // Run the switch timer out and the cycle moves to the next pattern.
    let _ = enemy_attack(&mut attacks, at, None, false, 10_000);
    assert_eq!(attacks.current_attack, 1);
}

#[test]
fn switch_timer_advances_even_between_volleys() {
    // A one-bullet pattern finishes its volley at once; the switch timer
    // keeps running regardless of the pattern's own cooldowns, so the
    // cycle still moves on while the pattern waits out its cooldown.
    let patterns = vec![ring_pattern(1, 60_000, Some(100)), ring_pattern(4, 800, None)];
    let mut attacks = Attacks::new(patterns, Timer::new(10_000, TimerMode::Once));
    let at = Transform::origin();

    let shot = enemy_attack(&mut attacks, at, None, false, 100);
    assert_eq!(shot.len(), 1);
    assert_eq!(attacks.attacks[0].current_bullet, 1);

    // The pattern now sits between volleys; the switch timer completes
    // anyway and the cursor moves to the second pattern.
    let idle = enemy_attack(&mut attacks, at, None, false, 10_000);
    assert!(idle.is_empty());
    assert_eq!(attacks.current_attack, 1);
}

#[test]
fn state_change_winds_back_every_pattern() {
    // Accumulate cooldown on the first pattern, cycle to the second and
    // accumulate there too; the state change then resets both patterns,
    // the switch timer and the index, so no stale timer survives.
    let patterns = vec![ring_pattern(3, 800, None), ring_pattern(4, 900, None)];
    let mut attacks = Attacks::new(patterns, Timer::new(1000, TimerMode::Once));
    let at = Transform::origin();

    let _ = enemy_attack(&mut attacks, at, None, false, 700);
    let _ = enemy_attack(&mut attacks, at, None, false, 300);
    assert_eq!(attacks.current_attack, 1);
    let _ = enemy_attack(&mut attacks, at, None, false, 500);
    assert!(attacks.attacks[1].cd.elapsed_ms > 0);

    let swept = enemy_attack(&mut attacks, at, None, true, 10);
    assert!(swept.is_empty());
    assert_eq!(attacks.current_attack, 0);
    // The non-current pattern's elapsed cooldown did not survive.
    assert_eq!(attacks.attacks[1].cd.elapsed_ms, 0);
    // The processed pattern carries only this tick's ten milliseconds.
    assert_eq!(attacks.attacks[0].cd.elapsed_ms, 10);
    assert_eq!(attacks.switch_timer.elapsed_ms, 10);
}

#[test]
fn enemy_attack_state_change_resets_cadence() {
    let patterns = vec![ring_pattern(3, 800, None)];
    let mut attacks = Attacks::new(patterns, Timer::new(10_000, TimerMode::Once));
    let at = Transform::origin();

    // Accumulate most of a cooldown, then a state change winds it back:
    // the same tick cannot complete the freshly reset timer.
    let none = enemy_attack(&mut attacks, at, None, false, 700);
    assert!(none.is_empty());
    let reset = enemy_attack(&mut attacks, at, None, true, 700);
    assert!(reset.is_empty());
    // 99 more milliseconds still fall short of the fresh cooldown...
    let still = enemy_attack(&mut attacks, at, None, false, 99);
    assert!(still.is_empty());
    // ...and the millisecond that completes it releases the whole group.
    let fired = enemy_attack(&mut attacks, at, None, false, 1);
    assert_eq!(fired.len(), 3);
}
