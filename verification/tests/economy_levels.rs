//! The score economy, the counters, the player's weapons, the pickups'
//! lifecycle, and the level driver.

use barrage::collisions::ColliderType;
use barrage::collectables::{
    magnetise_all, magnetise_to_player, manage_lifetimes, spawn_collectable_around,
    spawn_collectables, CollectableLifetime, CollectableType,
};
use barrage::event::{create_collectables_on_despawn, DespawnEvent};
use barrage::geometry::{Rot, Transform, Vec2};
use barrage::levels::{
    advance_level, check_won, convert_leftover_bullets, create_playfield, level1, level2, level3,
    CurrentLevel, FieldBullet, SpawnEnemyTimer, Wall,
};
use barrage::player::{
    move_player, spawn_player, spawn_player_bullet, special_attack, EnemiesKilled,
    PlayerAttackCD, Power, Score, Specials,
};
use barrage::shared::{Counter, GameOptions, Movement};
use barrage::timer::{Timer, TimerMode};

fn v(x: i64, y: i64) -> Vec2 {
    Vec2 { x, y }
}

fn at(x: i64, y: i64) -> Transform {
    Transform { pos: v(x, y), layer: 0, rot: Rot { c: 1000, s: 0 } }
}

#[test]
fn score_adds_through_multiplier_and_grazing_breaks_additivity() {
    // With the multiplier untouched, add(10) twice equals add(20) in one
    // call. A multiplier bump between the calls revalues the accumulator.
    let mut a = Score::default();
    a.add(10);
    a.add(10);
    let mut b = Score::default();
    b.add(20);
    assert_eq!(a.get(), b.get());
    assert_eq!(a.get(), 30);

    let mut c = Score::default();
    c.add(10);
    assert_eq!(c.get(), 15);
    c.increase_multiplier_by(10);
    assert_eq!(c.get_multiplier(), 1510);
    c.add(10);
    // The whole accumulator of 20 is revalued at 1.51: floor(30.2).
    assert_eq!(c.get(), 30);

    let mut d = Score::default();
    d.add(20);
    assert_eq!(d.get(), 30);
    d.set(7);
    assert_eq!(d.get(), 7);
    d.subtract(9);
    assert_eq!(d.get(), 0);
}

#[test]
fn score_add_precondition_check_matches_add() {
    let mut s = Score::default();
    assert!(s.can_add(10));
    s.add(10);
    assert_eq!(s.get(), 15);
    // Near the top of the accumulator the check refuses the addition.
    s.set(u64::MAX - 5);
    assert!(!s.can_add(10));
}

#[test]
fn power_clamps_and_floors() {
    let mut p = Power::new(490, 500);
    p.add(15);
    assert_eq!(p.get(), 500);
    p.subtract(501);
    assert_eq!(p.get(), 0);
    // A starting value above the maximum is clamped to it.
    assert_eq!(Power::new(501, 500).get(), 500);
    assert_eq!(Power::new(501, 500).max(), 500);
}

#[test]
fn player_loadout_matches_the_design() {
    let p = spawn_player();
    assert_eq!(p.health.total, 30_000);
    assert_eq!(p.power.max(), 500);
    assert_eq!(p.power.get(), 0);
    assert_eq!(p.specials.get(), 5);
    assert_eq!(p.score.get(), 0);
    assert_eq!(p.score.get_multiplier(), 1500);
    assert_eq!(p.kills.get_current_level(), 0);
    assert_eq!(p.transform.pos.y, -300_000);
}

#[test]
fn special_attack_consumes_charge_and_clears_enemy_bullets() {
    let mut specials = Specials::new(2);
    let bullets = vec![
        (10u64, ColliderType::EnemyBullet),
        (11u64, ColliderType::PlayerBullet),
        (12u64, ColliderType::EnemyBullet),
    ];
    let out = special_attack(at(0, -300_000), &mut specials, &bullets);
    assert_eq!(specials.get(), 1);
    // Only the enemy bullets are swept, each worth one point, cascading.
    assert_eq!(out.despawn.len(), 2);
    assert_eq!(out.despawn[0].entity, 10);
    assert_eq!(out.despawn[1].entity, 12);
    assert!(out.despawn[0].recursive);
    assert_eq!(out.despawn[0].drop_score, 1);
    assert_eq!(out.despawn[0].drop_power, 0);
    // The burst is the fixed ring of thirty-five heavy player bullets.
    assert_eq!(out.burst.len(), 35);
    for b in &out.burst {
        assert_eq!(b.collider_type, ColliderType::PlayerBullet);
        assert_eq!(b.bullet.get_damage(), 50_000);
        assert_eq!(b.bullet.get_max(), 50_000);
    }
}

#[test]
fn special_attack_without_charges_is_a_no_op() {
    let mut specials = Specials::new(0);
    let bullets = vec![(10u64, ColliderType::EnemyBullet)];
    let out = special_attack(at(0, 0), &mut specials, &bullets);
    assert_eq!(specials.get(), 0);
    assert!(out.despawn.is_empty());
    assert!(out.burst.is_empty());
}

#[test]
fn primary_fire_rate_limited_spread() {
    let mut cd = PlayerAttackCD::default();
    let player = Some(at(0, -300_000));

    // The cooldown starts unelapsed: an early trigger pull fires nothing.
    let early = spawn_player_bullet(&mut cd, 100, true, player);
    assert!(early.is_empty());

    // Once 200 ms have passed, the held trigger releases the spread.
    let shots = spawn_player_bullet(&mut cd, 100, true, player);
    assert_eq!(shots.len(), 3);
    for s in &shots {
        assert_eq!(s.collider_type, ColliderType::PlayerBullet);
        assert_eq!(s.bullet.get_damage(), 5000);
        assert_eq!(s.bullet.get_max(), 20_000);
        assert_eq!(s.transform.pos.x, 0);
        assert_eq!(s.transform.pos.y, -295_000);
    }
    assert_eq!(shots[0].movement.velocity, v(0, 5000));
    assert_eq!(shots[1].movement.velocity, v(-5000, 4000));
    assert_eq!(shots[2].movement.velocity, v(5000, 4000));

    // The cooldown restarted: the very next tick fires nothing again.
    let after = spawn_player_bullet(&mut cd, 10, true, player);
    assert!(after.is_empty());

    // An elapsed cooldown without the trigger held also fires nothing.
    let idle = spawn_player_bullet(&mut cd, 5000, false, player);
    assert!(idle.is_empty());
}

#[test]
fn steering_banks_the_sprite_and_scales_velocity() {
    let p = spawn_player();
    let options = GameOptions::default();

    let m = move_player(&p.movement, true, false, false, false, false, &options);
    assert_eq!(m.sprite_index, 4);
    assert_eq!(m.linvel, v(240_000, 0));

    let m = move_player(&p.movement, false, true, false, false, false, &options);
    assert_eq!(m.sprite_index, 3);
    assert_eq!(m.linvel, v(-240_000, 0));

    // Both keys cancel out; the sprite flies straight.
    let m = move_player(&p.movement, true, true, false, false, false, &options);
    assert_eq!(m.sprite_index, 5);
    assert_eq!(m.linvel, v(0, 0));

    // A diagonal is normalised, not faster.
    let m = move_player(&p.movement, true, false, true, false, false, &options);
    assert_eq!(m.linvel, v(169_680, 169_680));

    // Focusing slows the ship by four fifths.
    let m = move_player(&p.movement, true, false, false, false, true, &options);
    assert_eq!(m.linvel, v(133_333, 0));
}

#[test]
fn pickup_lifetime_flashes_then_expires() {
    let mut lifetime = CollectableLifetime::new(
        Timer::new(15_000, TimerMode::Once),
        Timer::new(500, TimerMode::Repeating),
    );

    // More than half the lifetime remains: nothing shows.
    let quiet = manage_lifetimes(&mut lifetime, 7000);
    assert_eq!(quiet.set_dimmed, None);
    assert!(!quiet.despawn);

    // Past the halfway mark the flash timer drives the tint, toggling
    // each completed half second.
    let first = manage_lifetimes(&mut lifetime, 1000);
    assert_eq!(first.set_dimmed, Some(false));
    assert!(!first.despawn);
    assert!(lifetime.get_flash());

    let second = manage_lifetimes(&mut lifetime, 500);
    assert_eq!(second.set_dimmed, Some(true));
    assert!(!second.despawn);

    // And when the fifteen seconds are spent, the pickup goes.
    let last = manage_lifetimes(&mut lifetime, 6500);
    assert!(last.despawn);
}

#[test]
fn pickups_scatter_near_their_source() {
    let target = at(1_000_000, -500_000);
    for _ in 0..20 {
        let c = spawn_collectable_around(&target, Movement::zero(), CollectableType::Power);
        assert_eq!(c.kind, CollectableType::Power);
        assert!((c.transform.pos.x - target.pos.x).abs() <= 20_000);
        assert!((c.transform.pos.y - target.pos.y).abs() <= 20_000);
        assert_eq!(c.lifetime.l_timer.duration_ms, 15_000);
        assert_eq!(c.lifetime.v_timer.duration_ms, 500);
    }
}

#[test]
fn death_drops_five_score_and_three_power() {
    let ev = DespawnEvent::new(7, true).with_score(5).with_power(3);
    let drops = create_collectables_on_despawn(&ev, &at(0, 0));
    assert_eq!(drops.len(), 8);
    for (k, d) in drops.iter().enumerate() {
        let expected = if k < 5 { CollectableType::Score } else { CollectableType::Power };
        assert_eq!(d.kind, expected);
        // The fixed gentle downward drift.
        assert_eq!(d.movement.velocity, v(0, -7000));
    }
}

#[test]
fn batch_spawn_orders_score_before_power() {
    let cs = spawn_collectables(2, 1, &at(0, 0), Movement::zero());
    assert_eq!(cs.len(), 3);
    assert_eq!(cs[0].kind, CollectableType::Score);
    assert_eq!(cs[1].kind, CollectableType::Score);
    assert_eq!(cs[2].kind, CollectableType::Power);
}

#[test]
fn magnet_pulls_only_within_reach() {
    // At fifty units the pickup drifts on; within thirty it homes in.
    let mut far = Movement::absolute(v(1000, 0), v(0, 0));
    magnetise_to_player(&mut far, v(0, 0), v(30_000, 40_000));
    assert_eq!(far.velocity, v(1000, 0));

    let mut near = Movement::absolute(v(1000, 0), v(0, 0));
    magnetise_to_player(&mut near, v(0, 0), v(9000, 12_000));
    // Strength fifteen along (0.6, 0.8).
    assert_eq!(near.velocity, v(9000, 12_000));

    // The level-exit sweep reaches any distance, at strength forty.
    let mut swept = Movement::absolute(v(1000, 0), v(0, 0));
    magnetise_all(&mut swept, v(0, 0), v(30_000, 40_000));
    assert_eq!(swept.velocity, v(24_000, 32_000));
}

#[test]
fn win_needs_no_boss_and_the_kill_quota() {
    let mut kills = EnemiesKilled::new();
    for _ in 0..15 {
        kills.increment();
    }
    assert!(check_won(0, &kills));
    assert!(!check_won(1, &kills));
    kills.reset_current();
    assert!(!check_won(0, &kills));
    // The overall tally survives the level change.
    assert_eq!(kills.get(), 15);
}

#[test]
fn levels_progress_and_the_last_one_wins() {
    let t = advance_level(CurrentLevel::One);
    assert_eq!(t.next, CurrentLevel::Two);
    assert!(!t.game_won);
    let t = advance_level(CurrentLevel::Two);
    assert_eq!(t.next, CurrentLevel::Three);
    let t = advance_level(CurrentLevel::Three);
    assert_eq!(t.next, CurrentLevel::NoLevel);
    assert!(t.game_won);
    let t = advance_level(CurrentLevel::NoLevel);
    assert_eq!(t.next, CurrentLevel::NoLevel);
    assert!(!t.game_won);
}

#[test]
fn playfield_walls_hug_the_window_edges() {
    // An 800 by 600 window (in whole units).
    let walls = create_playfield(800_000, 600_000);
    assert_eq!(walls.len(), 4);
    assert_eq!(walls[0].wall, Wall::Right);
    assert_eq!(walls[0].pos.x, 400_000 + 80_000);
    assert_eq!(walls[0].half_height, 300_000);
    assert_eq!(walls[1].wall, Wall::Left);
    assert_eq!(walls[1].pos.x, -480_000);
    assert_eq!(walls[2].wall, Wall::Top);
    assert_eq!(walls[2].pos.y, 380_000);
    assert_eq!(walls[2].half_width, 400_000);
    assert_eq!(walls[3].wall, Wall::Bottom);
    // The bottom wall sits a sixth of its thickness closer in.
    assert_eq!(walls[3].pos.y, -300_000 - 66_666);
}

#[test]
fn leftover_enemy_bullets_become_score_pickups() {
    let bullets = vec![
        FieldBullet { entity: 1, kind: ColliderType::EnemyBullet, transform: at(0, 0) },
        FieldBullet { entity: 2, kind: ColliderType::PlayerBullet, transform: at(0, 0) },
        FieldBullet { entity: 3, kind: ColliderType::EnemyBullet, transform: at(5000, 0) },
    ];
    let out = convert_leftover_bullets(&bullets);
    assert_eq!(out.despawn, vec![1, 3]);
    assert_eq!(out.pickups.len(), 2);
    for p in &out.pickups {
        assert_eq!(p.kind, CollectableType::Score);
        assert_eq!(p.movement.velocity, v(0, -4000));
        assert!(!p.movement.local);
    }
    // Each pickup appears where its bullet flew, within the scatter box.
    assert!(out.pickups[0].transform.pos.x.abs() <= 20_000);
    assert!((out.pickups[1].transform.pos.x - 5000).abs() <= 20_000);
}

#[test]
fn level_scripts_send_enemies_on_their_cadence() {
    let mut timer = SpawnEnemyTimer::default();
    assert!(level1::spawn_enemies(&mut timer, 1000).is_none());
    let spawned = level1::spawn_enemies(&mut timer, 600).expect("cadence complete");
    assert!(spawned.transform.pos.x >= -150_000 && spawned.transform.pos.x < 150_000);
    assert_eq!(spawned.transform.pos.y, 300_000);
    assert_eq!(spawned.health.current, 20_000);
    assert_eq!(spawned.attacks.get_attacks_ref().len(), 1);

    // Level two retunes the cadence to 1.1 seconds.
    let mut timer2 = SpawnEnemyTimer::default();
    assert!(level2::spawn_enemies(&mut timer2, 1000).is_none());
    let spawned2 = level2::spawn_enemies(&mut timer2, 100).expect("cadence complete");
    assert!(spawned2.transform.pos.x >= -250_000 && spawned2.transform.pos.x < 250_000);

    // Level three's is 0.8 seconds, and its soldiers fire bullet by
    // bullet at random angles.
    let mut timer3 = SpawnEnemyTimer::default();
    let spawned3 = level3::spawn_enemies(&mut timer3, 800).expect("cadence complete");
    let pattern = &spawned3.attacks.get_attacks_ref()[0];
    assert_eq!(pattern.bullet_group.number, 6);
    assert!(pattern.icd.is_some());
}

#[test]
fn bosses_carry_their_level_loadouts() {
    let b1 = level1::spawn_boss();
    assert_eq!(b1.attacks.get_attacks_ref().len(), 3);
    assert_eq!(b1.health.current, 300_000);
    assert_eq!(b1.name.label, Some("Big Boss"));

    let b2 = level2::spawn_boss();
    assert_eq!(b2.attacks.get_attacks_ref().len(), 2);
    assert_eq!(b2.name.label, Some("Bigger Boss"));

    let b3 = level3::spawn_boss();
    assert_eq!(b3.attacks.get_attacks_ref().len(), 2);
    assert_eq!(b3.attacks.get_attacks_ref()[1].bullet_group.number, 150);
    assert_eq!(b3.name.label, Some("Biggest Boss"));
}

#[test]
fn enemy_sway_is_bounded_by_its_amplitude() {
    let mut m = Movement::zero();
    for t in [0u64, 250, 500, 1000, 5000] {
        level1::enemy_movement(&mut m, t, 3);
        assert!(m.v_local.x.abs() <= 2000);
        level2::enemy_movement(&mut m, t, 3);
        assert!(m.v_local.x.abs() <= 4000);
    }
    let angvel = level2::boss_movement(&mut m);
    assert_eq!(angvel, 2000);
    assert_eq!(m.v_local, v(0, 5000));
}
