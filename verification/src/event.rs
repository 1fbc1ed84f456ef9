//! Domain events: damage and despawn requests queued by the collision
//! handlers and consumed later in the same tick, plus the game-over
//! signal.

use vstd::prelude::*;
use crate::collectables::{spawn_collectables, CollectableSpawn};
use crate::collisions::ColliderType;
use crate::geometry::{vec2_bounded, Transform, Vec2};
use crate::player::EnemiesKilled;
use crate::shared::{Counter, Health, Movement};

verus! {

/// A request that an entity take damage, with the recipient's category
/// when the sender knows it (lethality bookkeeping depends on it).
#[derive(Clone, Copy, Debug, PartialEq, Eq, Structural)]
pub struct TakeDamageEvent {
    pub entity: u64,
    pub entity_type: Option<ColliderType>,
    pub damage: i64,
}

impl TakeDamageEvent {
    pub fn new(entity: u64, entity_type: Option<ColliderType>, damage: i64) -> (ev:
        TakeDamageEvent)
        ensures
            ev == (TakeDamageEvent { entity, entity_type, damage }),
    {
        TakeDamageEvent { entity, entity_type, damage }
    }
}

/// A request that an entity leave the world: with its children when
/// `recursive` is set, and dropping the given numbers of score and power
/// pickups where it stood.
#[derive(Clone, Copy, Debug, PartialEq, Eq, Structural)]
pub struct DespawnEvent {
    pub entity: u64,
    pub recursive: bool,
    pub drop_score: u8,
    pub drop_power: u8,
}

impl DespawnEvent {
    pub fn new(entity: u64, recursive: bool) -> (ev: DespawnEvent)
        ensures
            ev == (DespawnEvent { entity, recursive, drop_score: 0u8, drop_power: 0u8 }),
    {
        DespawnEvent { entity, recursive, drop_score: 0, drop_power: 0 }
    }

    pub fn with_score(self, collectibles: u8) -> (ev: DespawnEvent)
        ensures
            ev == (DespawnEvent { drop_score: collectibles, ..self }),
    {
        DespawnEvent { drop_score: collectibles, ..self }
    }

    pub fn with_power(self, collectibles: u8) -> (ev: DespawnEvent)
        ensures
            ev == (DespawnEvent { drop_power: collectibles, ..self }),
    {
        DespawnEvent { drop_power: collectibles, ..self }
    }
}

/// The game-over signal raised when the player dies.
#[derive(Clone, Copy, Debug, PartialEq, Eq, Structural, Default)]
pub struct GameOverEvent;

/// What resolving one damage event asks the world to do.
pub struct DamageResolution {
    /// Raised when the blow was lethal to the player.
    pub game_over: bool,
    /// Despawn requests, to apply after all handlers have run.
    pub despawns: Vec<DespawnEvent>,
}

/// How many score pickups a death drops.
pub const DEATH_DROP_SCORE: u8 = 5;

/// How many power pickups a death drops.
pub const DEATH_DROP_POWER: u8 = 3;

/// Resolve one damage event against its target's health. Damage short of
/// the current health is simply subtracted. Anything else is lethal —
/// damage equal to the current health kills, it does not leave the target
/// at zero: the linked UI entity (if any) despawns without cascade, a
/// player death raises game over, an enemy death counts a kill, and the
/// target itself despawns with cascade, dropping five score and three
/// power pickups.
pub fn take_damage(
    event: &TakeDamageEvent,
    health: &mut Health,
    linked_ui: Option<u64>,
    kills: &mut EnemiesKilled,
) -> (r: DamageResolution)
    requires
        i64::MIN <= old(health).current - event.damage <= i64::MAX,
        old(kills).spec_total() < u16::MAX,
        old(kills).spec_current_level() < u16::MAX,
    ensures
        final(health).total == old(health).total,
        old(health).current > event.damage ==> {
            &&& final(health).current == old(health).current - event.damage
            &&& !r.game_over
            &&& r.despawns@.len() == 0
            &&& *final(kills) == *old(kills)
        },
        old(health).current <= event.damage ==> {
            &&& final(health).current == old(health).current
            &&& r.game_over == (event.entity_type == Some(ColliderType::Player))
            &&& (event.entity_type == Some(ColliderType::Enemy) ==> {
                &&& final(kills).spec_total() == old(kills).spec_total() + 1
                &&& final(kills).spec_current_level() == old(kills).spec_current_level() + 1
            })
            &&& (event.entity_type != Some(ColliderType::Enemy) ==> *final(kills) == *old(kills))
            &&& r.despawns@ == ({
                let target = DespawnEvent {
                    entity: event.entity,
                    recursive: true,
                    drop_score: DEATH_DROP_SCORE,
                    drop_power: DEATH_DROP_POWER,
                };
                match linked_ui {
                    Some(bar) => seq![
                        DespawnEvent { entity: bar, recursive: false, drop_score: 0u8, drop_power: 0u8 },
                        target,
                    ],
                    None => seq![target],
                }
            })
        },
{
    if health.current > event.damage {
        health.current = health.current - event.damage;
        return DamageResolution { game_over: false, despawns: Vec::new() };
    }
    let mut despawns: Vec<DespawnEvent> = Vec::new();
    if let Some(bar) = linked_ui {
        despawns.push(DespawnEvent::new(bar, false));
    }
    let mut game_over = false;
    match event.entity_type {
        Some(ColliderType::Player) => {
            game_over = true;
        },
        Some(ColliderType::Enemy) => {
            kills.increment();
        },
        _ => {},
    }
    despawns.push(
        DespawnEvent::new(event.entity, true).with_score(DEATH_DROP_SCORE).with_power(
            DEATH_DROP_POWER,
        ),
    );
    proof {
        if linked_ui is Some {
            assert(despawns@ =~= seq![
                DespawnEvent {
                    entity: linked_ui.unwrap(),
                    recursive: false,
                    drop_score: 0u8,
                    drop_power: 0u8,
                },
                DespawnEvent {
                    entity: event.entity,
                    recursive: true,
                    drop_score: DEATH_DROP_SCORE,
                    drop_power: DEATH_DROP_POWER,
                },
            ]);
        } else {
            assert(despawns@ =~= seq![
                DespawnEvent {
                    entity: event.entity,
                    recursive: true,
                    drop_score: DEATH_DROP_SCORE,
                    drop_power: DEATH_DROP_POWER,
                },
            ]);
        }
    }
    DamageResolution { game_over, despawns }
}

/// The independent damage observer: every damage event whose recipient is
/// an enemy — lethal or not — is worth twenty points to the player,
/// through the multiplier.
pub fn score_on_enemy_damage(event: &TakeDamageEvent, player_score: &mut crate::player::Score)
    requires
        event.entity_type == Some(ColliderType::Enemy) ==> old(player_score).add_req(20u64),
    ensures
        event.entity_type == Some(ColliderType::Enemy) ==> *final(player_score) == old(
            player_score,
        ).spec_add(20),
        event.entity_type != Some(ColliderType::Enemy) ==> *final(player_score) == *old(
            player_score,
        ),
{
    match event.entity_type {
        Some(ColliderType::Enemy) => {
            player_score.add(20);
        },
        _ => {},
    }
}

/// The pickups a despawn drops where the entity stood, drifting gently
/// downward: its score pickups first, then its power pickups.
pub fn create_collectables_on_despawn(event: &DespawnEvent, target: &Transform) -> (cs: Vec<
    CollectableSpawn,
>)
    requires
        vec2_bounded(target.pos),
    ensures
        cs@.len() == event.drop_score + event.drop_power,
        forall|k: int|
            0 <= k < event.drop_score ==> crate::collectables::collectable_spawn_post(
                *target,
                Movement {
                    velocity: Vec2 { x: 0i64, y: -7000i64 },
                    acceleration: Vec2 { x: 0, y: 0 },
                    local: false,
                    v_local: Vec2 { x: 0, y: 0 },
                    a_local: Vec2 { x: 0, y: 0 },
                },
                crate::collectables::CollectableType::Score,
                #[trigger] cs@[k],
            ),
        forall|k: int|
            event.drop_score <= k < event.drop_score + event.drop_power
                ==> crate::collectables::collectable_spawn_post(
                *target,
                Movement {
                    velocity: Vec2 { x: 0i64, y: -7000i64 },
                    acceleration: Vec2 { x: 0, y: 0 },
                    local: false,
                    v_local: Vec2 { x: 0, y: 0 },
                    a_local: Vec2 { x: 0, y: 0 },
                },
                crate::collectables::CollectableType::Power,
                #[trigger] cs@[k],
            ),
{
    let movement = Movement::new(
        Vec2 { x: 0, y: -7000 },
        Vec2 { x: 0, y: 0 },
        false,
        Vec2 { x: 0, y: 0 },
        Vec2 { x: 0, y: 0 },
    );
    spawn_collectables(event.drop_score, event.drop_power, target, movement)
}

} // verus!
