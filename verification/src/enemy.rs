//! Enemies: the set of attack patterns an enemy cycles through, the
//! per-tick attack step that decides what it fires, and the loadouts of
//! rank-and-file enemies and bosses.

use vstd::prelude::*;
use crate::bullet::{
    spawn_post, AttackPattern, BulletGroup, BulletSpawn, PatternAction, spec_pattern_step,
};
use crate::collisions::ColliderType;
use crate::formation::{Formation, FormationShape};
use crate::geometry::{transform_wf, Transform, Vec2};
use crate::shared::{Health, Movement, Name};
use crate::timer::{Timer, TIME_BOUND};

verus! {

/// Marker for a rank-and-file enemy entity.
#[derive(Clone, Copy, Debug)]
pub struct Enemy;

/// Marker for a boss entity.
#[derive(Clone, Copy, Debug)]
pub struct Boss;

/// Marker for a boss's health bar UI entity.
#[derive(Clone, Copy, Debug)]
pub struct BossHealthBar;

/// The size bullets present to the world, used when a linear formation is
/// re-aimed at the player: two metres square.
pub const BULLET_SIZE: i64 = 40_000;

/// The attacks an enemy can choose from: the patterns themselves, the one
/// currently firing, and the timer that cycles to the next.
#[derive(Clone, Debug)]
pub struct Attacks {
    pub attacks: Vec<AttackPattern>,
    pub current_attack: usize,
    pub switch_timer: Timer,
}

impl Attacks {
    /// At least one pattern, a valid cursor, sound timers everywhere, and
    /// groups that can actually be materialised.
    pub open spec fn wf(self) -> bool {
        &&& 1 <= self.attacks@.len()
        &&& self.current_attack < self.attacks@.len()
        &&& self.switch_timer.wf()
        &&& self.switch_timer.mode is Once
        &&& forall|k: int|
            0 <= k < self.attacks@.len() ==> ((#[trigger] self.attacks@[k]).wf()
                && self.attacks@[k].bullet_group.wf() && 1 <= self.attacks@[k].bullet_group.number)
    }

    pub fn new(attacks: Vec<AttackPattern>, switch_timer: Timer) -> (a: Attacks)
        ensures
            a.attacks == attacks,
            a.current_attack == 0,
            a.switch_timer == switch_timer,
    {
        Attacks { attacks, current_attack: 0, switch_timer }
    }

    /// A copy of the pattern list.
    pub fn get_attacks(&self) -> (r: Vec<AttackPattern>)
        ensures
            r@ == self.attacks@,
    {
        let mut r: Vec<AttackPattern> = Vec::new();
        let mut k: usize = 0;
        while k < self.attacks.len()
            invariant
                k <= self.attacks@.len(),
                r@ == self.attacks@.take(k as int),
            decreases self.attacks@.len() - k,
        {
            r.push(self.attacks[k]);
            proof {
                assert(r@ =~= self.attacks@.take(k + 1 as int));
            }
            k += 1;
        }
        proof {
            assert(self.attacks@.take(k as int) =~= self.attacks@);
        }
        r
    }

    pub fn get_attacks_ref(&self) -> (r: &Vec<AttackPattern>)
        ensures
            r == self.attacks,
    {
        &self.attacks
    }

    pub fn get_current_attack(&self) -> (r: usize)
        ensures
            r == self.current_attack,
    {
        self.current_attack
    }
}

/// A pattern wound back to its start: both cooldowns and the cursor.
pub open spec fn spec_reset_pattern(p: AttackPattern) -> AttackPattern {
    AttackPattern {
        cd: p.cd.spec_reset(),
        icd: match p.icd {
            Some(t) => Some(t.spec_reset()),
            None => None,
        },
        current_bullet: 0u16,
        ..p
    }
}

/// A bullet group re-aimed for this tick: its origin becomes the firing
/// enemy's transform, and a linear formation is rebuilt against the
/// player's live position (the world origin when no player exists), since
/// its target is only knowable now.
pub open spec fn spec_retarget(
    g: BulletGroup,
    origin: Transform,
    player: Option<Transform>,
) -> BulletGroup {
    BulletGroup {
        origin,
        formation: if g.formation.kind == FormationShape::Linear {
            Formation {
                kind: FormationShape::Linear,
                randomised: false,
                ratio: None,
                radius: None,
                amplitude: None,
                frequency: None,
                target: Some(
                    match player {
                        Some(t) => t,
                        None => Transform::spec_origin(),
                    },
                ),
                entity_size: Some(Vec2 { x: BULLET_SIZE as i64, y: BULLET_SIZE as i64 }),
            }
        } else {
            g.formation
        },
        ..g
    }
}

/// Every pattern in the list wound back to its start.
pub open spec fn spec_reset_all(ps: Seq<AttackPattern>) -> Seq<AttackPattern> {
    Seq::new(ps.len(), |i: int| spec_reset_pattern(ps[i]))
}

/// The cadence state after one attack tick: the switch timer advances by
/// `dt` regardless of any pattern's own cooldowns, and its completion
/// moves the cursor circularly to the next pattern and restarts it.
pub open spec fn spec_cycle(current: usize, len: int, switch: Timer, dt: u64) -> (usize, Timer) {
    let ticked = switch.spec_tick_once(dt);
    if ticked.spec_finished() {
        ((if current < len - 1 {
            (current + 1) as usize
        } else {
            0usize
        }), ticked.spec_reset())
    } else {
        (current, ticked)
    }
}

/// One tick of an enemy's attacking. When the governing game state has
/// just changed, every pattern's timers and cursor, the switch timer and
/// the pattern index are all wound back first, so no stale timer survives
/// a restart. The pattern at the cursor then steps its cooldown machinery
/// (see `spec_pattern_step`); the switch timer always advances too,
/// independent of the patterns' own cooldowns, and its completion moves
/// the cursor circularly to the next pattern for later ticks. Whatever
/// the step released is materialised from the group re-aimed at the
/// enemy's position (and, for a linear formation, at the player).
pub fn enemy_attack(
    attacks: &mut Attacks,
    enemy_transform: Transform,
    player_transform: Option<Transform>,
    state_changed: bool,
    dt: u64,
) -> (spawns: Vec<BulletSpawn>)
    requires
        old(attacks).wf(),
        transform_wf(enemy_transform),
        match player_transform {
            Some(t) => transform_wf(t),
            None => true,
        },
        dt <= TIME_BOUND,
    ensures
        final(attacks).wf(),
        final(attacks).attacks@.len() == old(attacks).attacks@.len(),
        ({
            let base = if state_changed {
                spec_reset_all(old(attacks).attacks@)
            } else {
                old(attacks).attacks@
            };
            let switch0 = if state_changed {
                old(attacks).switch_timer.spec_reset()
            } else {
                old(attacks).switch_timer
            };
            let cursor0: usize = if state_changed {
                0usize
            } else {
                old(attacks).current_attack
            };
            let idx = cursor0 as int;
            let stepped = spec_pattern_step(base[idx], dt);
            let cycled = spec_cycle(cursor0, old(attacks).attacks@.len() as int, switch0, dt);
            let fired_group = spec_retarget(
                stepped.0.bullet_group,
                enemy_transform,
                player_transform,
            );
            &&& final(attacks).current_attack == cycled.0
            &&& final(attacks).switch_timer == cycled.1
            &&& final(attacks).attacks@ == base.update(
                idx,
                if stepped.1 is Hold {
                    stepped.0
                } else {
                    AttackPattern { bullet_group: fired_group, ..stepped.0 }
                },
            )
            &&& match stepped.1 {
                PatternAction::Hold => spawns@.len() == 0,
                PatternAction::SpawnOne(k) => spawns@.len() == 1 && spawn_post(
                    fired_group,
                    stepped.0.movement,
                    k as int,
                    spawns@[0],
                ),
                PatternAction::SpawnAll => spawns@.len() == fired_group.number && (forall|j: int|
                    0 <= j < fired_group.number ==> spawn_post(
                        fired_group,
                        stepped.0.movement,
                        j,
                        #[trigger] spawns@[j],
                    )),
            }
        }),
{
    if state_changed {
        let n = attacks.attacks.len();
        let mut k: usize = 0;
        while k < n
            invariant
                n == attacks.attacks@.len() == old(attacks).attacks@.len(),
                k <= n,
                attacks.current_attack == old(attacks).current_attack,
                attacks.switch_timer == old(attacks).switch_timer,
                forall|j: int|
                    0 <= j < k ==> attacks.attacks@[j] == spec_reset_pattern(
                        #[trigger] old(attacks).attacks@[j],
                    ),
                forall|j: int| k <= j < n ==> attacks.attacks@[j] == old(attacks).attacks@[j],
                forall|j: int|
                    0 <= j < n ==> ((#[trigger] old(attacks).attacks@[j]).wf() && old(
                        attacks,
                    ).attacks@[j].bullet_group.wf() && 1 <= old(
                        attacks,
                    ).attacks@[j].bullet_group.number),
            decreases n - k,
        {
            let pattern = &mut attacks.attacks[k];
            pattern.reset();
            k += 1;
        }
        attacks.switch_timer.reset();
        attacks.current_attack = 0;
        proof {
            assert(attacks.attacks@ =~= spec_reset_all(old(attacks).attacks@));
            assert forall|j: int| 0 <= j < n implies ((#[trigger] attacks.attacks@[j]).wf()
                && attacks.attacks@[j].bullet_group.wf() && 1
                <= attacks.attacks@[j].bullet_group.number) by {
                assert(attacks.attacks@[j] == spec_reset_pattern(old(attacks).attacks@[j]));
            };
        }
    }
    let idx = attacks.current_attack;
    let pattern = &mut attacks.attacks[idx];
    let action = pattern.step(dt);

    attacks.switch_timer.tick(dt);
    if attacks.switch_timer.finished() {
        if attacks.current_attack < attacks.attacks.len() - 1 {
            attacks.current_attack = attacks.current_attack + 1;
        } else {
            attacks.current_attack = 0;
        }
        attacks.switch_timer.reset();
    }

    match action {
        PatternAction::Hold => Vec::new(),
        PatternAction::SpawnOne(k) => {
            let pattern = &mut attacks.attacks[idx];
            pattern.bullet_group = retarget_group(
                pattern.bullet_group,
                enemy_transform,
                player_transform,
            );
            let movement = pattern.movement;
            let group = pattern.bullet_group;
            let spawn = group.spawn_single(movement, k);
            let mut spawns: Vec<BulletSpawn> = Vec::new();
            spawns.push(spawn);
            spawns
        },
        PatternAction::SpawnAll => {
            let pattern = &mut attacks.attacks[idx];
            pattern.bullet_group = retarget_group(
                pattern.bullet_group,
                enemy_transform,
                player_transform,
            );
            let movement = pattern.movement;
            let group = pattern.bullet_group;
            group.spawn_all(movement)
        },
    }
}

/// Re-aim a group for this tick (see `spec_retarget`).
fn retarget_group(g: BulletGroup, origin: Transform, player: Option<Transform>) -> (r: BulletGroup)
    requires
        g.wf(),
        transform_wf(origin),
        match player {
            Some(t) => transform_wf(t),
            None => true,
        },
    ensures
        r == spec_retarget(g, origin, player),
        r.wf(),
        r.number == g.number,
{
    let formation = if matches!(g.formation.kind, FormationShape::Linear) {
        let target = match player {
            Some(t) => t,
            None => Transform::origin(),
        };
        Formation::linear(target, Vec2 { x: BULLET_SIZE, y: BULLET_SIZE })
    } else {
        g.formation
    };
    BulletGroup { origin, formation, ..g }
}

/// Everything a rank-and-file enemy entity starts with: twenty health,
/// its attacks, and a gentle drift down the field.
pub struct EnemySpawn {
    pub transform: Transform,
    pub attacks: Attacks,
    pub health: Health,
    pub movement: Movement,
}

pub fn spawn_enemy(spawn_point: Transform, attacks: Attacks) -> (e: EnemySpawn)
    ensures
        e.transform == spawn_point,
        e.attacks == attacks,
        e.health.total == 20_000 && e.health.current == 20_000,
        e.movement == (Movement {
            velocity: Vec2 { x: 0, y: 0 },
            acceleration: Vec2 { x: 0, y: 0 },
            local: true,
            v_local: Vec2 { x: 0, y: 0 },
            a_local: Vec2 { x: 0i64, y: -3000i64 },
        }),
{
    EnemySpawn {
        transform: spawn_point,
        attacks,
        health: Health::new(20_000, Some(20_000)),
        movement: Movement::relative(Vec2 { x: 0, y: 0 }, Vec2 { x: 0, y: -3000 }),
    }
}

/// Everything a boss entity starts with: a name for its health bar, three
/// hundred health, its attacks, and no drift of its own.
pub struct BossSpawn {
    pub name: Name,
    pub transform: Transform,
    pub attacks: Attacks,
    pub health: Health,
    pub movement: Movement,
}

pub fn spawn_boss(name: Name, spawn_point: Transform, attacks: Attacks) -> (b: BossSpawn)
    ensures
        b.transform == spawn_point,
        b.attacks == attacks,
        b.health.total == 300_000 && b.health.current == 300_000,
        b.movement == Movement::spec_zero(),
{
    BossSpawn {
        name,
        transform: spawn_point,
        attacks,
        health: Health::new(300_000, None),
        movement: Movement::zero(),
    }
}

} // verus!
