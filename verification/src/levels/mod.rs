//! The level driver: playfield walls, the level progression state
//! machine, the win condition, the end-of-level sweep of leftover enemy
//! bullets, and the per-level encounter scripts.

pub mod level1;
pub mod level2;
pub mod level3;

use vstd::prelude::*;
use crate::collectables::{spawn_collectables, CollectableSpawn};
use crate::collisions::ColliderType;
use crate::fixed::{div_floor, mod_euclid, FX_BOUND, FX_ONE};
use crate::geometry::{vec2_bounded, Transform, Vec2};
use crate::player::EnemiesKilled;
use crate::shared::Movement;
use crate::timer::{Timer, TimerMode};
use crate::trig::{sin_bam, spec_sin, FULL_TURN};

verus! {

/// A static playfield border, tagged with its side.
#[derive(Clone, Copy, Debug, PartialEq, Eq, Structural)]
pub enum Wall {
    Left,
    Right,
    Top,
    Bottom,
}

/// Which level is running. `Endless` is reserved and currently
/// unreachable.
#[derive(Clone, Copy, Debug, PartialEq, Eq, Structural, Default)]
pub enum CurrentLevel {
    #[default]
    NoLevel,
    One,
    Two,
    Three,
    Endless,
}

/// Kills needed in a level before its end can be reached.
pub const LEVEL_KILL_QUOTA: u16 = 15;

/// Whether the running level is won: no boss entity remains and the
/// level's kill tally has reached the quota.
pub fn check_won(bosses_alive: usize, enemies_killed: &EnemiesKilled) -> (won: bool)
    ensures
        won == (bosses_alive == 0 && enemies_killed.spec_current_level() >= LEVEL_KILL_QUOTA),
{
    bosses_alive == 0 && enemies_killed.get_current_level() >= LEVEL_KILL_QUOTA
}

/// Where the level progression goes next, and what it signals.
#[derive(Clone, Copy, Debug, PartialEq, Eq, Structural)]
pub struct LevelTransition {
    pub next: CurrentLevel,
    /// Past the final level the game as a whole is won (and gameplay
    /// stops).
    pub game_won: bool,
}

/// Advance past the current level: one leads to two, two to three, and
/// finishing three wins the game; with no level running (or in the
/// reserved endless state) nothing changes.
pub fn advance_level(current: CurrentLevel) -> (t: LevelTransition)
    ensures
        t == match current {
            CurrentLevel::One => LevelTransition { next: CurrentLevel::Two, game_won: false },
            CurrentLevel::Two => LevelTransition { next: CurrentLevel::Three, game_won: false },
            CurrentLevel::Three => LevelTransition { next: CurrentLevel::NoLevel, game_won: true },
            _ => LevelTransition { next: current, game_won: false },
        },
{
    match current {
        CurrentLevel::One => LevelTransition { next: CurrentLevel::Two, game_won: false },
        CurrentLevel::Two => LevelTransition { next: CurrentLevel::Three, game_won: false },
        CurrentLevel::Three => LevelTransition { next: CurrentLevel::NoLevel, game_won: true },
        CurrentLevel::NoLevel => LevelTransition { next: CurrentLevel::NoLevel, game_won: false },
        CurrentLevel::Endless => LevelTransition { next: CurrentLevel::Endless, game_won: false },
    }
}

/// A bullet on the field at level exit, as the driver sees it: its
/// handle, its category and where it stands.
#[derive(Clone, Copy, Debug)]
pub struct FieldBullet {
    pub entity: u64,
    pub kind: ColliderType,
    pub transform: Transform,
}

/// What sweeping the leftover bullets asks the world to do.
pub struct LeftoverConversion {
    /// Enemy bullets to remove, with their children.
    pub despawn: Vec<u64>,
    /// One score pickup in each one's place, drifting gently down.
    pub pickups: Vec<CollectableSpawn>,
}

/// The enemy-bullet handles among the field bullets, in order.
pub open spec fn spec_enemy_bullets(bullets: Seq<FieldBullet>) -> Seq<u64>
    decreases bullets.len(),
{
    if bullets.len() == 0 {
        Seq::empty()
    } else {
        let rest = spec_enemy_bullets(bullets.drop_last());
        if bullets.last().kind == ColliderType::EnemyBullet {
            rest.push(bullets.last().entity)
        } else {
            rest
        }
    }
}

/// Where those enemy bullets flew, in the same order.
pub open spec fn spec_enemy_bullet_spots(bullets: Seq<FieldBullet>) -> Seq<Transform>
    decreases bullets.len(),
{
    if bullets.len() == 0 {
        Seq::empty()
    } else {
        let rest = spec_enemy_bullet_spots(bullets.drop_last());
        if bullets.last().kind == ColliderType::EnemyBullet {
            rest.push(bullets.last().transform)
        } else {
            rest
        }
    }
}

/// The gentle downward drift a converted bullet's pickup gets.
pub open spec fn spec_leftover_drift() -> Movement {
    Movement {
        velocity: Vec2 { x: 0i64, y: -4000i64 },
        acceleration: Vec2 { x: 0, y: 0 },
        local: false,
        v_local: Vec2 { x: 0, y: 0 },
        a_local: Vec2 { x: 0, y: 0 },
    }
}

/// On leaving a level, every enemy bullet still alive despawns (with its
/// children) and leaves a single score pickup where it flew, so no unfair
/// barrage carries over into the next level.
pub fn convert_leftover_bullets(bullets: &Vec<FieldBullet>) -> (out: LeftoverConversion)
    requires
        forall|k: int| 0 <= k < bullets@.len() ==> vec2_bounded(#[trigger] bullets@[k].transform.pos),
    ensures
        out.despawn@ == spec_enemy_bullets(bullets@),
        out.pickups@.len() == out.despawn@.len(),
        out.pickups@.len() == spec_enemy_bullet_spots(bullets@).len(),
        forall|k: int|
            0 <= k < out.pickups@.len() ==> crate::collectables::collectable_spawn_post(
                spec_enemy_bullet_spots(bullets@)[k],
                spec_leftover_drift(),
                crate::collectables::CollectableType::Score,
                #[trigger] out.pickups@[k],
            ),
{
    let mut despawn: Vec<u64> = Vec::new();
    let mut pickups: Vec<CollectableSpawn> = Vec::new();
    let n = bullets.len();
    let mut idx: usize = 0;
    while idx < n
        invariant
            n == bullets@.len(),
            idx <= n,
            forall|k: int|
                0 <= k < bullets@.len() ==> vec2_bounded(#[trigger] bullets@[k].transform.pos),
            despawn@ == spec_enemy_bullets(bullets@.take(idx as int)),
            pickups@.len() == despawn@.len(),
            pickups@.len() == spec_enemy_bullet_spots(bullets@.take(idx as int)).len(),
            forall|k: int|
                0 <= k < pickups@.len() ==> crate::collectables::collectable_spawn_post(
                    spec_enemy_bullet_spots(bullets@.take(idx as int))[k],
                    spec_leftover_drift(),
                    crate::collectables::CollectableType::Score,
                    #[trigger] pickups@[k],
                ),
        decreases n - idx,
    {
        let b = &bullets[idx];
        proof {
            assert(bullets@.take(idx + 1 as int).drop_last() =~= bullets@.take(idx as int));
        }
        if matches!(b.kind, ColliderType::EnemyBullet) {
            despawn.push(b.entity);
            let movement = Movement::absolute(Vec2 { x: 0, y: -4000 }, Vec2 { x: 0, y: 0 });
            let mut dropped = spawn_collectables(1, 0, &b.transform, movement);
            proof {
                assert(dropped@.len() == 1);
                assert(movement == spec_leftover_drift());
            }
            match dropped.pop() {
                Some(p) => pickups.push(p),
                _ => {},
            }
        }
        proof {
            assert(spec_enemy_bullet_spots(bullets@.take(idx + 1 as int)).drop_last()
                == spec_enemy_bullet_spots(bullets@.take(idx as int)) || spec_enemy_bullet_spots(
                bullets@.take(idx + 1 as int),
            ) == spec_enemy_bullet_spots(bullets@.take(idx as int)));
        }
        idx += 1;
    }
    proof {
        assert(bullets@.take(n as int) =~= bullets@);
    }
    LeftoverConversion { despawn, pickups }
}

/// One playfield border to stand up: which side, where its centre sits,
/// and its half-extents.
#[derive(Clone, Copy, Debug, PartialEq, Eq, Structural)]
pub struct WallSpawn {
    pub wall: Wall,
    pub pos: Vec2,
    pub half_width: i64,
    pub half_height: i64,
}

/// The relative thickness of a wall: four metres.
pub const WALL_CROSS_AXIS: i64 = 80_000;

/// The four playfield borders for a window of the given size, hugging its
/// edges: the side walls stand just beyond the half-width and span the
/// half-height, the top and bottom walls the other way around — the
/// bottom one pulled a sixth of its thickness closer in.
pub fn create_playfield(window_width: i64, window_height: i64) -> (walls: Vec<WallSpawn>)
    requires
        0 <= window_width <= FX_BOUND,
        0 <= window_height <= FX_BOUND,
    ensures
        walls@.len() == 4,
        ({
            let horizontal = window_width as int / 2;
            let vertical = window_height as int / 2;
            &&& walls@[0] == (WallSpawn {
                wall: Wall::Right,
                pos: Vec2 { x: (horizontal + WALL_CROSS_AXIS) as i64, y: 0 },
                half_width: WALL_CROSS_AXIS as i64,
                half_height: vertical as i64,
            })
            &&& walls@[1] == (WallSpawn {
                wall: Wall::Left,
                pos: Vec2 { x: (-horizontal - WALL_CROSS_AXIS) as i64, y: 0 },
                half_width: WALL_CROSS_AXIS as i64,
                half_height: vertical as i64,
            })
            &&& walls@[2] == (WallSpawn {
                wall: Wall::Top,
                pos: Vec2 { x: 0, y: (vertical + WALL_CROSS_AXIS) as i64 },
                half_width: horizontal as i64,
                half_height: WALL_CROSS_AXIS as i64,
            })
            &&& walls@[3] == (WallSpawn {
                wall: Wall::Bottom,
                pos: Vec2 { x: 0, y: (-vertical - WALL_CROSS_AXIS * 1000 / 1200) as i64 },
                half_width: horizontal as i64,
                half_height: WALL_CROSS_AXIS as i64,
            })
        }),
{
    let horizontal = window_width / 2;
    let vertical = window_height / 2;
    let inset = div_floor(WALL_CROSS_AXIS * 1000, 1200);
    let mut walls: Vec<WallSpawn> = Vec::new();
    walls.push(
        WallSpawn {
            wall: Wall::Right,
            pos: Vec2 { x: horizontal + WALL_CROSS_AXIS, y: 0 },
            half_width: WALL_CROSS_AXIS,
            half_height: vertical,
        },
    );
    walls.push(
        WallSpawn {
            wall: Wall::Left,
            pos: Vec2 { x: -horizontal - WALL_CROSS_AXIS, y: 0 },
            half_width: WALL_CROSS_AXIS,
            half_height: vertical,
        },
    );
    walls.push(
        WallSpawn {
            wall: Wall::Top,
            pos: Vec2 { x: 0, y: vertical + WALL_CROSS_AXIS },
            half_width: horizontal,
            half_height: WALL_CROSS_AXIS,
        },
    );
    walls.push(
        WallSpawn {
            wall: Wall::Bottom,
            pos: Vec2 { x: 0, y: -vertical - inset },
            half_width: horizontal,
            half_height: WALL_CROSS_AXIS,
        },
    );
    walls
}

/// The cadence of rank-and-file enemy arrivals; each level retunes its
/// duration.
#[derive(Clone, Copy, Debug, PartialEq, Eq, Structural)]
pub struct SpawnEnemyTimer(pub Timer);

impl Default for SpawnEnemyTimer {
    /// Level one's cadence: a fresh enemy every 1.6 seconds.
    fn default() -> (t: SpawnEnemyTimer)
        ensures
            t.0 == Timer::spec_once(1600),
            t.0.wf(),
    {
        SpawnEnemyTimer(Timer::new(1600, TimerMode::Once))
    }
}

/// The binary angle of a sinusoidal drift at time `elapsed_ms`: the
/// fractional part of `frequency * t` of a turn (frequency in thousandths
/// of a hertz), shifted by a phase in thousandths of a radian (one radian
/// is 10430 binary-angle steps, within rounding).
pub open spec fn spec_drift_angle(frequency: i64, elapsed_ms: u64, phase_mrad: i64) -> int {
    ((frequency * elapsed_ms % 1_000_000) * (FULL_TURN as int) / 1_000_000 + phase_mrad * 10430
        / (FX_ONE as int)) % (FULL_TURN as int)
}

/// A sinusoidal drift velocity: `amplitude * sin(2π·frequency·t + phase)`
/// in fixed-point, the waveform the level scripts sway their enemies with.
pub open spec fn spec_sine_drift(
    amplitude: i64,
    frequency: i64,
    elapsed_ms: u64,
    phase_mrad: i64,
) -> int {
    amplitude * spec_sin(spec_drift_angle(frequency, elapsed_ms, phase_mrad)) / (FX_ONE as int)
}

/// Evaluate the drift waveform exactly.
pub fn sine_drift(amplitude: i64, frequency: i64, elapsed_ms: u64, phase_mrad: i64) -> (v: i64)
    requires
        0 <= amplitude <= FX_BOUND,
        0 <= frequency <= 1_000_000,
        elapsed_ms <= 100_000_000,
        0 <= phase_mrad <= 1_000_000,
    ensures
        v == spec_sine_drift(amplitude, frequency, elapsed_ms, phase_mrad),
        -FX_BOUND <= v <= FX_BOUND,
{
    proof {
        crate::geometry::lemma_mul_bound(frequency as int, elapsed_ms as int, 1_000_000, 100_000_000);
        vstd::arithmetic::div_mod::lemma_mod_division_less_than_divisor(
            frequency as int * elapsed_ms as int,
            1_000_000,
        );
        vstd::arithmetic::div_mod::lemma_mod_bound(frequency as int * elapsed_ms as int, 1_000_000);
    }
    let turn_part = (frequency * (elapsed_ms as i64)) % 1_000_000;
    let bam_base = div_floor(turn_part * (FULL_TURN as i64), 1_000_000);
    let phase_bam = div_floor(phase_mrad * 10430, FX_ONE);
    proof {
        crate::fixed::lemma_div_magnitude(turn_part * (FULL_TURN as int), 1_000_000);
        crate::fixed::lemma_div_magnitude(phase_mrad * 10430, 1000);
        crate::geometry::lemma_mul_bound(phase_mrad as int, 10430, 1_000_000, 10430);
    }
    let angle = mod_euclid(bam_base + phase_bam, FULL_TURN as i64) as u16;
    let s = sin_bam(angle);
    proof {
        crate::geometry::lemma_mul_bound(amplitude as int, s as int, 1_000_000_000, 1000);
        crate::fixed::lemma_div_magnitude(amplitude as int * s as int, 1000);
    }
    div_floor(amplitude * s, FX_ONE)
}

} // verus!
