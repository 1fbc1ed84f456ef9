//! Collectables: score and power pickups, their limited lifetime with the
//! end-of-life flashing, their scattered spawning around a dead entity,
//! and the pull that draws them toward the player.

use vstd::prelude::*;
use crate::fixed::{fxb, FX_BOUND};
use crate::geometry::{spec_length, vec2_bounded, Rot, Transform, Vec2};
use crate::shared::{magnetise_to, movement_bounded, spec_vsub, Movement};
use crate::timer::{Timer, TimerMode, TIME_BOUND};

verus! {

/// How far from the despawn point a pickup may scatter, in fixed-point
/// thousandths: twenty units either way.
pub const SCATTER_BOUND: i64 = 20_000;

/// A pickup's lifetime: fifteen seconds.
pub const COLLECTABLE_LIFETIME_MS: u64 = 15_000;

/// How often a dying pickup flashes: every half second.
pub const COLLECTABLE_FLASH_MS: u64 = 500;

/// Pickups drift toward the player within this distance: thirty units.
pub const MAGNET_DISTANCE: i64 = 30_000;

/// Pull strength toward the player in normal play: fifteen units.
pub const MAGNET_STRENGTH: i64 = 15_000;

/// Pull strength when the field is swept clean: forty units.
pub const SWEEP_STRENGTH: i64 = 40_000;

#[derive(Clone, Copy, Debug, PartialEq, Eq, Structural)]
pub enum CollectableType {
    Power,
    Score,
}

/// Marker of a pickup entity and what it grants.
#[derive(Clone, Copy, Debug, PartialEq, Eq, Structural)]
pub struct Collectable {
    pub kind: CollectableType,
}

/// A pickup's clocks: how long it lives, and the cadence of its flashing
/// once less than half its life remains, with the flash state itself.
#[derive(Clone, Copy, Debug, PartialEq, Eq, Structural)]
pub struct CollectableLifetime {
    pub l_timer: Timer,
    pub v_timer: Timer,
    pub flash: bool,
}

impl CollectableLifetime {
    pub open spec fn spec_flash(self) -> bool {
        self.flash
    }

    pub open spec fn wf(self) -> bool {
        self.l_timer.wf() && self.l_timer.mode is Once && self.v_timer.wf()
    }

    pub fn new(lifetime: Timer, flashing: Timer) -> (c: CollectableLifetime)
        ensures
            c.l_timer == lifetime,
            c.v_timer == flashing,
            !c.spec_flash(),
    {
        CollectableLifetime { l_timer: lifetime, v_timer: flashing, flash: false }
    }

    pub fn get_flash(&self) -> (f: bool)
        ensures
            f == self.spec_flash(),
    {
        self.flash
    }

    pub fn invert_flash(&mut self)
        ensures
            final(self).spec_flash() == !old(self).spec_flash(),
            final(self).l_timer == old(self).l_timer,
            final(self).v_timer == old(self).v_timer,
    {
        self.flash = !self.flash;
    }
}

/// What one tick of a pickup's clocks asks the world to do: retint the
/// sprite (darkened when the flag held, restored otherwise), and despawn
/// once the lifetime is spent.
#[derive(Clone, Copy, Debug, PartialEq, Eq, Structural)]
pub struct LifetimeOutcome {
    pub set_dimmed: Option<bool>,
    pub despawn: bool,
}

/// Advance one pickup's clocks by `dt` milliseconds. While at least half
/// the lifetime remains nothing shows; after that the flash timer toggles
/// the tint each time it completes, and the pickup despawns (without
/// cascade or loot) when its lifetime is spent.
pub fn manage_lifetimes(lifetime: &mut CollectableLifetime, dt: u64) -> (out: LifetimeOutcome)
    requires
        old(lifetime).wf(),
        dt <= TIME_BOUND,
    ensures
        final(lifetime).wf(),
        final(lifetime).l_timer == old(lifetime).l_timer.spec_tick_once(dt),
        ({
            let l1 = old(lifetime).l_timer.spec_tick_once(dt);
            let v1 = if old(lifetime).v_timer.mode is Once {
                old(lifetime).v_timer.spec_tick_once(dt)
            } else {
                final(lifetime).v_timer
            };
            if l1.duration_ms - l1.elapsed_ms >= l1.duration_ms / 2 {
                &&& out == (LifetimeOutcome { set_dimmed: None::<bool>, despawn: false })
                &&& final(lifetime).spec_flash() == old(lifetime).spec_flash()
            } else {
                &&& out.despawn == l1.spec_finished()
                &&& out.set_dimmed == if final(lifetime).v_timer.spec_finished() {
                    Some(old(lifetime).spec_flash())
                } else {
                    None::<bool>
                }
                &&& final(lifetime).spec_flash() == if final(lifetime).v_timer.spec_finished() {
                    !old(lifetime).spec_flash()
                } else {
                    old(lifetime).spec_flash()
                }
            }
        }),
    {
    lifetime.v_timer.tick(dt);
    lifetime.l_timer.tick(dt);

    if lifetime.l_timer.remaining() >= lifetime.l_timer.duration() / 2 {
        return LifetimeOutcome { set_dimmed: None, despawn: false };
    }
    let set_dimmed = if lifetime.v_timer.finished() {
        let dim = lifetime.get_flash();
        lifetime.invert_flash();
        Some(dim)
    } else {
        None
    };
    LifetimeOutcome { set_dimmed, despawn: lifetime.l_timer.finished() }
}

/// Everything the world needs to materialise one pickup entity.
#[derive(Clone, Copy, Debug)]
pub struct CollectableSpawn {
    pub kind: CollectableType,
    pub transform: Transform,
    pub movement: Movement,
    pub lifetime: CollectableLifetime,
}

/// Whether one pickup spawn sits properly around `target`: within the
/// scatter bound on each axis, on the far background layer, carrying the
/// handed-down movement and the fixed fifteen-second, half-second-flash
/// clocks.
pub open spec fn collectable_spawn_post(
    target: Transform,
    movement: Movement,
    kind: CollectableType,
    c: CollectableSpawn,
) -> bool {
    &&& c.kind == kind
    &&& c.movement == movement
    &&& target.pos.x - SCATTER_BOUND <= c.transform.pos.x <= target.pos.x + SCATTER_BOUND
    &&& target.pos.y - SCATTER_BOUND <= c.transform.pos.y <= target.pos.y + SCATTER_BOUND
    &&& c.transform.layer == 0
    &&& c.transform.rot == target.rot
    &&& c.lifetime.l_timer == Timer::spec_once(COLLECTABLE_LIFETIME_MS)
    &&& c.lifetime.v_timer == (Timer {
        duration_ms: COLLECTABLE_FLASH_MS,
        elapsed_ms: 0,
        mode: TimerMode::Repeating,
        wrapped: false,
    })
    &&& !c.lifetime.spec_flash()
}

/// One pickup, scattered a fresh uniform (x, y) within twenty units of
/// the target, drifting as told, with the fixed lifetime and flash rate.
pub fn spawn_collectable_around(target: &Transform, movement: Movement, kind: CollectableType) -> (
    c: CollectableSpawn)
    requires
        vec2_bounded(target.pos),
    ensures
        collectable_spawn_post(*target, movement, kind, c),
{
    let dx = crate::rng::rand_range_i64(-SCATTER_BOUND, SCATTER_BOUND + 1);
    let dy = crate::rng::rand_range_i64(-SCATTER_BOUND, SCATTER_BOUND + 1);
    CollectableSpawn {
        kind,
        transform: Transform {
            pos: Vec2 { x: target.pos.x + dx, y: target.pos.y + dy },
            layer: 0,
            rot: target.rot,
        },
        movement,
        lifetime: CollectableLifetime::new(
            Timer::new(COLLECTABLE_LIFETIME_MS, TimerMode::Once),
            Timer::new(COLLECTABLE_FLASH_MS, TimerMode::Repeating),
        ),
    }
}

/// Scatter a batch of pickups around a point: the score pickups first,
/// then the power pickups, all drifting the same way.
pub fn spawn_collectables(n_score: u8, n_power: u8, target: &Transform, movement: Movement) -> (cs:
    Vec<CollectableSpawn>)
    requires
        vec2_bounded(target.pos),
    ensures
        cs@.len() == n_score + n_power,
        forall|k: int|
            0 <= k < n_score ==> collectable_spawn_post(
                *target,
                movement,
                CollectableType::Score,
                #[trigger] cs@[k],
            ),
        forall|k: int|
            n_score <= k < n_score + n_power ==> collectable_spawn_post(
                *target,
                movement,
                CollectableType::Power,
                #[trigger] cs@[k],
            ),
{
    let mut cs: Vec<CollectableSpawn> = Vec::new();
    let mut i: u8 = 0;
    while i < n_score
        invariant
            vec2_bounded(target.pos),
            i <= n_score,
            cs@.len() == i,
            forall|k: int|
                0 <= k < i ==> collectable_spawn_post(
                    *target,
                    movement,
                    CollectableType::Score,
                    #[trigger] cs@[k],
                ),
        decreases n_score - i,
    {
        cs.push(spawn_collectable_around(target, movement, CollectableType::Score));
        i += 1;
    }
    let mut j: u8 = 0;
    while j < n_power
        invariant
            vec2_bounded(target.pos),
            j <= n_power,
            cs@.len() == n_score + j,
            forall|k: int|
                0 <= k < n_score ==> collectable_spawn_post(
                    *target,
                    movement,
                    CollectableType::Score,
                    #[trigger] cs@[k],
                ),
            forall|k: int|
                n_score <= k < n_score + j ==> collectable_spawn_post(
                    *target,
                    movement,
                    CollectableType::Power,
                    #[trigger] cs@[k],
                ),
        decreases n_power - j,
    {
        cs.push(spawn_collectable_around(target, movement, CollectableType::Power));
        j += 1;
    }
    cs
}

/// Pull one pickup toward the player, but only once it has drifted within
/// the magnet distance; farther out its movement stands.
pub fn magnetise_to_player(
    collectable_movement: &mut Movement,
    collectable_pos: Vec2,
    player_pos: Vec2,
)
    requires
        fxb(player_pos.x - collectable_pos.x),
        fxb(player_pos.y - collectable_pos.y),
    ensures
        final(collectable_movement).local == old(collectable_movement).local,
        final(collectable_movement).v_local == old(collectable_movement).v_local,
        final(collectable_movement).a_local == old(collectable_movement).a_local,
        final(collectable_movement).acceleration == old(collectable_movement).acceleration,
        ({
            let d = spec_vsub(player_pos, collectable_pos);
            if spec_length(d) <= MAGNET_DISTANCE {
                &&& final(collectable_movement).velocity.x == MAGNET_STRENGTH
                    * crate::geometry::spec_unit_x(d) / 1000
                &&& final(collectable_movement).velocity.y == MAGNET_STRENGTH
                    * crate::geometry::spec_unit_y(d) / 1000
            } else {
                final(collectable_movement).velocity == old(collectable_movement).velocity
            }
        }),
{
    let displacement = Vec2 {
        x: player_pos.x - collectable_pos.x,
        y: player_pos.y - collectable_pos.y,
    };
    if crate::geometry::length(displacement) <= MAGNET_DISTANCE {
        magnetise_to(collectable_movement, collectable_pos, player_pos, MAGNET_STRENGTH, false);
    }
}

/// Sweep the field: pull every pickup toward the player regardless of
/// distance, at the stronger sweep strength.
pub fn magnetise_all(collectable_movement: &mut Movement, collectable_pos: Vec2, player_pos: Vec2)
    requires
        fxb(player_pos.x - collectable_pos.x),
        fxb(player_pos.y - collectable_pos.y),
    ensures
        final(collectable_movement).local == old(collectable_movement).local,
        final(collectable_movement).v_local == old(collectable_movement).v_local,
        final(collectable_movement).a_local == old(collectable_movement).a_local,
        final(collectable_movement).acceleration == old(collectable_movement).acceleration,
        final(collectable_movement).velocity.x == SWEEP_STRENGTH * crate::geometry::spec_unit_x(
            spec_vsub(player_pos, collectable_pos),
        ) / 1000,
        final(collectable_movement).velocity.y == SWEEP_STRENGTH * crate::geometry::spec_unit_y(
            spec_vsub(player_pos, collectable_pos),
        ) / 1000,
{
    magnetise_to(collectable_movement, collectable_pos, player_pos, SWEEP_STRENGTH, false);
}

} // verus!
