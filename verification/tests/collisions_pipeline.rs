//! The collision pipeline end to end: ingest, the category handlers, the
//! damage resolution, and the per-tick cleanup.

use std::collections::HashMap;

use barrage::bullet::Bullet;
use barrage::collisions::{
    cleanup_collisions, handle_bullet_col, handle_collectable_col, handle_collisions,
    handle_enemy_col, handle_player_col, scaled_damage, ColliderType, CollisionData,
    CollisionEvent, Collisions, SENSOR_FLAG,
};
use barrage::collectables::CollectableType;
use barrage::event::{score_on_enemy_damage, take_damage, TakeDamageEvent};
use barrage::levels::Wall;
use barrage::player::{EnemiesKilled, Graze, Power, Score};
use barrage::geometry::Vec2;
use barrage::shared::{Counter, Health, Movement};

fn v(x: i64, y: i64) -> Vec2 {
    Vec2 { x, y }
}

fn record(other_type: ColliderType, other_entity: u64, started: bool) -> CollisionData {
    CollisionData { other_type, other_entity, flags: 0, started }
}

#[test]
fn ingest_records_both_sides_and_cleanup_empties_the_table() {
    let mut collisions = Collisions::new();
    let mut colliders: HashMap<u64, ColliderType> = HashMap::new();
    colliders.insert(1, ColliderType::PlayerBullet);
    colliders.insert(2, ColliderType::Enemy);
    colliders.insert(3, ColliderType::Player);

    let events = vec![
        CollisionEvent { entity1: 1, entity2: 2, flags: 0, started: true },
        // Entity 9 carries no category: the event leaves no trace.
        CollisionEvent { entity1: 9, entity2: 3, flags: 0, started: true },
        CollisionEvent { entity1: 3, entity2: 2, flags: 0, started: true },
    ];
    handle_collisions(&mut collisions, &colliders, &events);

    let bullet_records = collisions.table.get(&1).unwrap();
    assert_eq!(bullet_records.len(), 1);
    assert_eq!(bullet_records[0].other_entity, 2);
    assert_eq!(bullet_records[0].other_type, ColliderType::Enemy);
    assert!(bullet_records[0].started);

    // The enemy saw both overlaps, in arrival order.
    let enemy_records = collisions.table.get(&2).unwrap();
    assert_eq!(enemy_records.len(), 2);
    assert_eq!(enemy_records[0].other_entity, 1);
    assert_eq!(enemy_records[1].other_entity, 3);

    // The untagged entity 9 got nothing, and neither did its partner from
    // that event: no records and no involvement mark.
    assert!(collisions.table.get(&9).is_none());
    assert!(!collisions.marked.contains(&9));
    assert_eq!(collisions.table.get(&3).unwrap().len(), 1);
    assert!(collisions.marked.contains(&1));
    assert!(collisions.marked.contains(&2));
    assert!(collisions.marked.contains(&3));

    // After cleanup nothing survives: no records, no involvement marks.
    cleanup_collisions(&mut collisions);
    assert_eq!(collisions.table.len(), 0);
    assert_eq!(collisions.marked.len(), 0);
}

#[test]
fn power_scaling_maps_the_damage_envelope() {
    // Bullet 5/20, power 250 of 500: dealt = 5 + 0.5 * (20 - 5) = 12.5.
    let bullet = Bullet::new(5000, 20_000);
    let power = Power::new(250, 500);
    assert_eq!(scaled_damage(&bullet, &power), 12_500);

    // Zero power deals the floor, full power the ceiling.
    assert_eq!(scaled_damage(&bullet, &Power::new(0, 500)), 5000);
    assert_eq!(scaled_damage(&bullet, &Power::new(500, 500)), 20_000);
}

#[test]
fn player_bullet_hits_enemy_and_observer_scores() {
    // A player bullet (5/20) begins overlapping an enemy while the player
    // holds 250 of 500 power: the enemy is dealt 12.5, survives at 7.5,
    // drops nothing, counts no kill — and the player gains the flat score
    // award through the multiplier.
    let bullet = Bullet::new(5000, 20_000);
    let power = Power::new(250, 500);
    let records = vec![record(ColliderType::Enemy, 7, true)];
    let out = handle_bullet_col(42, ColliderType::PlayerBullet, &bullet, Some(&power), &records);

    assert_eq!(out.damage.len(), 1);
    assert_eq!(out.damage[0].entity, 7);
    assert_eq!(out.damage[0].entity_type, Some(ColliderType::Enemy));
    assert_eq!(out.damage[0].damage, 12_500);
    // The bullet itself is despawned, without cascade.
    assert_eq!(out.despawn.len(), 1);
    assert_eq!(out.despawn[0].entity, 42);
    assert!(!out.despawn[0].recursive);

    // Resolve the damage against the enemy's 20 health.
    let mut health = Health::new(20_000, Some(20_000));
    let mut kills = EnemiesKilled::new();
    let resolution = take_damage(&out.damage[0], &mut health, None, &mut kills);
    assert_eq!(health.current, 7_500);
    assert!(!resolution.game_over);
    assert!(resolution.despawns.is_empty());
    assert_eq!(kills.get_current_level(), 0);

    // The independent observer pays out on every enemy damage event.
    let mut score = Score::default();
    score_on_enemy_damage(&out.damage[0], &mut score);
    assert_eq!(score.get(), 30);
}

#[test]
fn enemy_bullet_leaving_wall_despawns_quietly() {
    // An enemy bullet stops overlapping a wall sensor: despawned without
    // cascade, no damage, no score, no loot.
    let bullet = Bullet::new(5000, 5000);
    let records = vec![record(ColliderType::Wall, 100, false)];
    let out = handle_bullet_col(13, ColliderType::EnemyBullet, &bullet, None, &records);

    assert!(out.damage.is_empty());
    assert_eq!(out.despawn.len(), 1);
    assert_eq!(out.despawn[0].entity, 13);
    assert!(!out.despawn[0].recursive);
    assert_eq!(out.despawn[0].drop_score, 0);
    assert_eq!(out.despawn[0].drop_power, 0);
}

#[test]
fn bullet_ignores_wall_entry_and_overlap_ends() {
    let bullet = Bullet::new(5000, 5000);
    let records = vec![
        record(ColliderType::Wall, 100, true),
        record(ColliderType::Enemy, 7, false),
        record(ColliderType::Collectable, 8, true),
    ];
    let out = handle_bullet_col(13, ColliderType::EnemyBullet, &bullet, None, &records);
    assert!(out.damage.is_empty());
    assert!(out.despawn.is_empty());
}

#[test]
fn triple_graze_in_one_tick() {
    // Three graze-sensor overlaps in one tick: the graze counter climbs
    // by three and the multiplier by three hundredths.
    let records = vec![
        record(ColliderType::Graze, 50, true),
        record(ColliderType::Graze, 51, true),
        record(ColliderType::Graze, 52, true),
    ];
    let mut graze = Graze::default();
    let mut score = Score::default();
    let hits = handle_player_col(1, &records, &mut graze, &mut score);
    assert!(hits.is_empty());
    assert_eq!(graze.get(), 3);
    assert_eq!(score.get_multiplier(), 1530);
}

#[test]
fn player_touching_enemy_takes_fixed_damage() {
    let records = vec![record(ColliderType::Enemy, 7, true)];
    let mut graze = Graze::default();
    let mut score = Score::default();
    let hits = handle_player_col(1, &records, &mut graze, &mut score);
    assert_eq!(hits.len(), 1);
    assert_eq!(hits[0].entity, 1);
    assert_eq!(hits[0].entity_type, Some(ColliderType::Player));
    assert_eq!(hits[0].damage, 10_000);
    assert_eq!(graze.get(), 0);
}

#[test]
fn enemy_touching_player_and_drifting_off_field() {
    let records = vec![
        record(ColliderType::Player, 1, true),
        CollisionData {
            other_type: ColliderType::Wall,
            other_entity: 100,
            flags: SENSOR_FLAG,
            started: false,
        },
    ];
    let out = handle_enemy_col(7, &records);
    // Contact deals the enemy fifteen, with no category attached, so it
    // neither scores nor counts as a kill when lethal.
    assert_eq!(out.damage.len(), 1);
    assert_eq!(out.damage[0].entity, 7);
    assert_eq!(out.damage[0].entity_type, None);
    assert_eq!(out.damage[0].damage, 15_000);
    // Leaving the wall sensor despawns the enemy without cascade.
    assert_eq!(out.despawn.len(), 1);
    assert_eq!(out.despawn[0].entity, 7);
    assert!(!out.despawn[0].recursive);
}

#[test]
fn lethal_damage_at_exact_health_boundary() {
    // Damage equal to current health kills; one less leaves a sliver.
    let event = TakeDamageEvent::new(7, Some(ColliderType::Enemy), 20_000);
    let mut health = Health::new(20_000, Some(20_000));
    let mut kills = EnemiesKilled::new();
    let resolution = take_damage(&event, &mut health, None, &mut kills);
    assert_eq!(resolution.despawns.len(), 1);
    assert_eq!(resolution.despawns[0].entity, 7);
    assert!(resolution.despawns[0].recursive);
    assert_eq!(resolution.despawns[0].drop_score, 5);
    assert_eq!(resolution.despawns[0].drop_power, 3);
    assert_eq!(kills.get_current_level(), 1);
    assert!(!resolution.game_over);

    let softer = TakeDamageEvent::new(7, Some(ColliderType::Enemy), 19_999);
    let mut health2 = Health::new(20_000, Some(20_000));
    let mut kills2 = EnemiesKilled::new();
    let survive = take_damage(&softer, &mut health2, None, &mut kills2);
    assert!(survive.despawns.is_empty());
    assert_eq!(health2.current, 1);
    assert_eq!(kills2.get_current_level(), 0);
}

#[test]
fn lethal_player_damage_raises_game_over_and_tears_down_ui() {
    let event = TakeDamageEvent::new(1, Some(ColliderType::Player), 30_000);
    let mut health = Health::new(30_000, None);
    let mut kills = EnemiesKilled::new();
    let resolution = take_damage(&event, &mut health, Some(900), &mut kills);
    assert!(resolution.game_over);
    // The linked health bar goes first, without cascade; then the player,
    // with cascade and the loot drop.
    assert_eq!(resolution.despawns.len(), 2);
    assert_eq!(resolution.despawns[0].entity, 900);
    assert!(!resolution.despawns[0].recursive);
    assert_eq!(resolution.despawns[1].entity, 1);
    assert!(resolution.despawns[1].recursive);
    assert_eq!(kills.get_current_level(), 0);
}

#[test]
fn collectable_pickup_grants_score_and_despawns() {
    let records = vec![record(ColliderType::Player, 1, true)];
    let walls: HashMap<u64, Wall> = HashMap::new();
    let mut movement = Movement::zero();
    let mut score = Score::default();
    let mut power = Power::new(0, 500);
    let despawns = handle_collectable_col(
        60,
        CollectableType::Score,
        &mut movement,
        &records,
        &walls,
        &mut score,
        &mut power,
    );
    // Fifty points through the 1.5 multiplier.
    assert_eq!(score.get(), 75);
    assert_eq!(power.get(), 0);
    assert_eq!(despawns.len(), 1);
    assert_eq!(despawns[0].entity, 60);
    assert!(!despawns[0].recursive);
    assert_eq!(despawns[0].drop_score, 0);
}

#[test]
fn collectable_pickup_grants_power_up_to_cap() {
    let records = vec![
        record(ColliderType::Player, 1, true),
        record(ColliderType::Player, 1, true),
        record(ColliderType::Player, 1, true),
    ];
    let walls: HashMap<u64, Wall> = HashMap::new();
    let mut movement = Movement::zero();
    let mut score = Score::default();
    let mut power = Power::new(499, 500);
    let despawns = handle_collectable_col(
        61,
        CollectableType::Power,
        &mut movement,
        &records,
        &walls,
        &mut score,
        &mut power,
    );
    // Three pickups, but power clamps at its maximum.
    assert_eq!(power.get(), 500);
    assert_eq!(score.get(), 0);
    assert_eq!(despawns.len(), 3);
}

#[test]
fn collectable_bounces_off_side_wall() {
    let records = vec![record(ColliderType::Wall, 100, true)];
    let mut walls: HashMap<u64, Wall> = HashMap::new();
    walls.insert(100, Wall::Left);
    let mut movement = Movement::absolute(v(6000, 1000), v(0, 0));
    let mut score = Score::default();
    let mut power = Power::new(0, 500);
    let before = movement.velocity;
    let _ = handle_collectable_col(
        62,
        CollectableType::Score,
        &mut movement,
        &records,
        &walls,
        &mut score,
        &mut power,
    );
    // Off a side wall the horizontal velocity flips sign and shrinks by a
    // factor between 1.5 and 2.5; the vertical is nudged by at most half
    // a unit.
    assert!(movement.velocity.x < 0);
    assert!(movement.velocity.x >= -4000);
    assert!(movement.velocity.x <= -2400);
    assert!((movement.velocity.y - before.y).abs() <= 500);
}
