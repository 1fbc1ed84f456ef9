//! Projectiles: the damage envelope of a bullet, groups of bullets that
//! share a formation, and the attack-pattern state machine that times
//! their release.

use vstd::prelude::*;
use crate::collisions::ColliderType;
use crate::formation::{transform_post, Formation};
use crate::geometry::{transform_wf, Transform};
use crate::shared::Movement;
use crate::fixed::{fx_bounded, FX_ONE};
use crate::timer::{Timer, TimerMode, TIME_BOUND};

verus! {

/// A bullet's damage envelope. The damage never exceeds the maximum: each
/// mutator clamps rather than fails.
#[derive(Clone, Copy, Debug, PartialEq, Eq, Structural)]
pub struct Bullet {
    damage: i64,
    max_damage: i64,
}

impl Bullet {
    /// Damage dealt on an unscaled hit, in fixed-point thousandths.
    pub closed spec fn spec_damage(self) -> i64 {
        self.damage
    }

    /// The envelope's upper bound, in fixed-point thousandths.
    pub closed spec fn spec_max(self) -> i64 {
        self.max_damage
    }

    /// The invariant every constructor and mutator maintains: the damage
    /// stays within the envelope and both bounds stay in fixed-point
    /// range.
    pub open spec fn wf(self) -> bool {
        self.spec_damage() <= self.spec_max() && fx_bounded(self.spec_damage()) && fx_bounded(
            self.spec_max(),
        )
    }
}

impl Bullet {

    /// A new envelope; damage above the maximum is capped to it.
    pub fn new(damage: i64, max_damage: i64) -> (b: Bullet)
        requires
            fx_bounded(damage),
            fx_bounded(max_damage),
        ensures
            b.spec_max() == max_damage,
            b.spec_damage() == if damage > max_damage {
                max_damage
            } else {
                damage
            },
            b.wf(),
    {
        Bullet {
            damage: if damage > max_damage {
                max_damage
            } else {
                damage
            },
            max_damage,
        }
    }

    /// Set the damage; a value above the maximum is capped to it.
    pub fn set_damage(&mut self, damage: i64)
        requires
            old(self).wf(),
            fx_bounded(damage),
        ensures
            final(self).wf(),
            final(self).spec_max() == old(self).spec_max(),
            final(self).spec_damage() == if damage > old(self).spec_max() {
                old(self).spec_max()
            } else {
                damage
            },
    {
        if damage > self.max_damage {
            self.damage = self.max_damage;
        } else {
            self.damage = damage;
        }
    }

    pub fn get_damage(&self) -> (d: i64)
        ensures
            d == self.spec_damage(),
    {
        self.damage
    }

    /// Set the maximum; damage above the new maximum is capped to it.
    pub fn set_max(&mut self, max_damage: i64)
        requires
            old(self).wf(),
            fx_bounded(max_damage),
        ensures
            final(self).wf(),
            final(self).spec_max() == max_damage,
            final(self).spec_damage() == if old(self).spec_damage() > max_damage {
                max_damage
            } else {
                old(self).spec_damage()
            },
    {
        if max_damage < self.damage {
            self.damage = max_damage;
        }
        self.max_damage = max_damage;
    }

    pub fn get_max(&self) -> (m: i64)
        ensures
            m == self.spec_max(),
    {
        self.max_damage
    }

    /// Set both bounds at once: first the maximum, then the damage, so the
    /// clamp applies against the new maximum.
    pub fn set(&mut self, damage: i64, max_damage: i64)
        requires
            old(self).wf(),
            fx_bounded(damage),
            fx_bounded(max_damage),
        ensures
            final(self).wf(),
            final(self).spec_max() == max_damage,
            final(self).spec_damage() == if damage > max_damage {
                max_damage
            } else {
                damage
            },
    {
        self.set_max(max_damage);
        self.set_damage(damage);
    }
}

/// A set of alike bullets released together: how many, from where, in
/// what formation, with what envelope and collision category.
#[derive(Clone, Copy, Debug)]
pub struct BulletGroup {
    pub collider_type: ColliderType,
    pub number: u16,
    pub origin: Transform,
    pub formation: Formation,
    pub bullet: Bullet,
}

impl BulletGroup {
    pub open spec fn wf(self) -> bool {
        &&& self.formation.wf()
        &&& transform_wf(self.origin)
        &&& self.bullet.wf()
    }
}

impl Default for BulletGroup {
    /// One bullet of unit damage at the world origin, on the default
    /// one-unit circle, colliding with nothing.
    fn default() -> (g: BulletGroup)
        ensures
            g.collider_type == ColliderType::Neutral,
            g.number == 1,
            g.origin == Transform::spec_origin(),
            g.formation.kind == crate::formation::FormationShape::Circular,
            !g.formation.randomised,
            g.formation.radius == Some(FX_ONE as i64),
            g.bullet.spec_damage() == FX_ONE,
            g.bullet.spec_max() == FX_ONE,
            g.wf(),
    {
        BulletGroup {
            collider_type: ColliderType::Neutral,
            number: 1,
            origin: Transform::origin(),
            formation: Formation::default(),
            bullet: Bullet::new(FX_ONE, FX_ONE),
        }
    }
}

/// Everything the world needs to materialise one bullet entity: where it
/// spawns and faces, its envelope, its category, and how it will move.
#[derive(Clone, Copy, Debug)]
pub struct BulletSpawn {
    pub transform: Transform,
    pub bullet: Bullet,
    pub collider_type: ColliderType,
    pub movement: Movement,
}

/// Whether one spawned bullet is bullet `i` of the group `g` released
/// with `movement`.
pub open spec fn spawn_post(g: BulletGroup, movement: Movement, i: int, b: BulletSpawn) -> bool {
    &&& b.bullet == g.bullet
    &&& b.collider_type == g.collider_type
    &&& b.movement == movement
    &&& transform_post(g.formation, i, g.number as int, g.origin, b.transform)
}

impl BulletGroup {
    /// Materialise bullet `i` of the group.
    pub fn spawn_single(&self, movement: Movement, i: u16) -> (b: BulletSpawn)
        requires
            self.wf(),
            1 <= self.number,
            i < self.number,
        ensures
            spawn_post(*self, movement, i as int, b),
    {
        let spawn_point = self.formation.transform(i, self.number, self.origin);
        BulletSpawn {
            transform: spawn_point,
            bullet: self.bullet,
            collider_type: self.collider_type,
            movement,
        }
    }

    /// Materialise the whole group at once, in index order.
    pub fn spawn_all(&self, movement: Movement) -> (bs: Vec<BulletSpawn>)
        requires
            self.wf(),
            1 <= self.number,
        ensures
            bs@.len() == self.number,
            forall|k: int| 0 <= k < self.number ==> spawn_post(*self, movement, k, #[trigger] bs@[k]),
    {
        let mut bs: Vec<BulletSpawn> = Vec::new();
        let mut i: u16 = 0;
        while i < self.number
            invariant
                self.wf(),
                1 <= self.number,
                i <= self.number,
                bs@.len() == i,
                forall|k: int| 0 <= k < i ==> spawn_post(*self, movement, k, #[trigger] bs@[k]),
            decreases self.number - i,
        {
            bs.push(self.spawn_single(movement, i));
            i += 1;
        }
        bs
    }
}

/// What one tick of a pattern asks the world to do.
#[derive(Clone, Copy, Debug, PartialEq, Eq, Structural)]
pub enum PatternAction {
    /// Nothing fires this tick.
    Hold,
    /// Release the single bullet with this index.
    SpawnOne(u16),
    /// Release the whole group at once.
    SpawnAll,
}

/// One attack: a bullet group, the movement its bullets get, an outer
/// cooldown between volleys, an optional inner cooldown between single
/// bullets of a volley, and the cursor of the next bullet to release.
#[derive(Clone, Copy, Debug)]
pub struct AttackPattern {
    pub bullet_group: BulletGroup,
    pub movement: Movement,
    pub cd: Timer,
    pub icd: Option<Timer>,
    pub current_bullet: u16,
}

impl AttackPattern {
    pub open spec fn wf(self) -> bool {
        &&& self.cd.wf()
        &&& self.cd.mode is Once
        &&& match self.icd {
            Some(t) => t.wf() && t.mode is Once,
            None => true,
        }
    }

    pub fn new(
        bullet_group: BulletGroup,
        movement: Movement,
        cooldown: Timer,
        internal_cooldown: Option<Timer>,
    ) -> (p: AttackPattern)
        ensures
            p == (AttackPattern {
                bullet_group,
                movement,
                cd: cooldown,
                icd: internal_cooldown,
                current_bullet: 0u16,
            }),
    {
        AttackPattern { bullet_group, movement, cd: cooldown, icd: internal_cooldown, current_bullet: 0 }
    }

    /// Wind the pattern back to the start: both cooldowns and the cursor.
    pub fn reset(&mut self)
        requires
            old(self).wf(),
        ensures
            final(self).wf(),
            final(self).bullet_group == old(self).bullet_group,
            final(self).movement == old(self).movement,
            final(self).cd == old(self).cd.spec_reset(),
            final(self).icd == match old(self).icd {
                Some(t) => Some(t.spec_reset()),
                None => None::<Timer>,
            },
            final(self).current_bullet == 0,
    {
        self.cd.reset();
        if let Some(icd) = &mut self.icd {
            icd.reset();
        }
        self.current_bullet = 0;
    }
}

impl Default for AttackPattern {
    /// The default group on a ten-second outer cooldown with a tenth of a
    /// second between single bullets.
    fn default() -> (p: AttackPattern)
        ensures
            p.bullet_group.wf(),
            p.movement == Movement::spec_zero(),
            p.cd == Timer::spec_once(10000),
            p.icd == Some(Timer::spec_once(100)),
            p.current_bullet == 0,
            p.wf(),
    {
        AttackPattern {
            bullet_group: BulletGroup::default(),
            movement: Movement::zero(),
            cd: Timer::new(10000, TimerMode::Once),
            icd: Some(Timer::new(100, TimerMode::Once)),
            current_bullet: 0,
        }
    }
}

/// One tick of the pattern state machine, as a mathematical function of
/// the pattern and the elapsed milliseconds.
///
/// The outer cooldown always ticks. A pattern whose cursor has run past
/// the group waits between volleys: when the outer cooldown completes,
/// the cursor and the cooldown restart, and nothing fires. Otherwise,
/// with an inner cooldown, its completion releases the single bullet at
/// the cursor, advances the cursor and restarts the inner cooldown; with
/// none, the outer cooldown's completion releases the whole group at once
/// and restarts the outer cooldown (the cursor is unused in that mode).
pub open spec fn spec_pattern_step(p: AttackPattern, dt: u64) -> (AttackPattern, PatternAction) {
    let cd1 = p.cd.spec_tick_once(dt);
    if p.current_bullet >= p.bullet_group.number {
        if cd1.spec_finished() {
            (
                AttackPattern { cd: cd1.spec_reset(), current_bullet: 0u16, ..p },
                PatternAction::Hold,
            )
        } else {
            (AttackPattern { cd: cd1, ..p }, PatternAction::Hold)
        }
    } else {
        match p.icd {
            Some(icd0) => {
                let icd1 = icd0.spec_tick_once(dt);
                if icd1.spec_finished() {
                    (
                        AttackPattern {
                            cd: cd1,
                            icd: Some(icd1.spec_reset()),
                            current_bullet: (p.current_bullet + 1) as u16,
                            ..p
                        },
                        PatternAction::SpawnOne(p.current_bullet),
                    )
                } else {
                    (AttackPattern { cd: cd1, icd: Some(icd1), ..p }, PatternAction::Hold)
                }
            },
            None => {
                if cd1.spec_finished() {
                    (AttackPattern { cd: cd1.spec_reset(), ..p }, PatternAction::SpawnAll)
                } else {
                    (AttackPattern { cd: cd1, ..p }, PatternAction::Hold)
                }
            },
        }
    }
}

impl AttackPattern {
    /// Advance the pattern by `dt` milliseconds and say what fires.
    pub fn step(&mut self, dt: u64) -> (action: PatternAction)
        requires
            old(self).wf(),
            dt <= TIME_BOUND,
        ensures
            *final(self) == spec_pattern_step(*old(self), dt).0,
            action == spec_pattern_step(*old(self), dt).1,
            final(self).wf(),
    {
        self.cd.tick(dt);
        if self.current_bullet >= self.bullet_group.number {
            if self.cd.finished() {
                self.current_bullet = 0;
                self.cd.reset();
            }
            return PatternAction::Hold;
        }
        match &mut self.icd {
            Some(icd) => {
                icd.tick(dt);
                if icd.finished() {
                    let idx = self.current_bullet;
                    self.current_bullet = idx + 1;
                    icd.reset();
                    PatternAction::SpawnOne(idx)
                } else {
                    PatternAction::Hold
                }
            },
            None => {
                if self.cd.finished() {
                    self.cd.reset();
                    PatternAction::SpawnAll
                } else {
                    PatternAction::Hold
                }
            },
        }
    }
}

/// The pattern after a whole run of ticks.
pub open spec fn spec_pattern_run(p: AttackPattern, dts: Seq<u64>) -> AttackPattern
    decreases dts.len(),
{
    if dts.len() == 0 {
        p
    } else {
        spec_pattern_step(spec_pattern_run(p, dts.drop_last()), dts.last()).0
    }
}

/// The total time of a run of ticks, in milliseconds.
pub open spec fn spec_total(dts: Seq<u64>) -> int
    decreases dts.len(),
{
    if dts.len() == 0 {
        0
    } else {
        spec_total(dts.drop_last()) + dts.last()
    }
}

/// Law: a pattern with no inner cooldown never fires more than once per
/// outer-cooldown duration. After the outer cooldown restarts (as it does
/// on every release), no run of ticks whose total time falls short of the
/// duration fires anything — and when it does fire, it is the whole group
/// at once (`PatternAction::SpawnAll` is all `number` bullets, by the
/// contract of `spawn_all`).
#[verifier::rlimit(60)]
pub proof fn lemma_group_fire_rate(p: AttackPattern, dts: Seq<u64>)
    requires
        p.wf(),
        p.icd is None,
        p.cd.elapsed_ms == 0,
        spec_total(dts) < p.cd.duration_ms,
    ensures
        forall|k: int|
            0 <= k < dts.len() ==> spec_pattern_step(
                spec_pattern_run(p, dts.take(k)),
                dts[k],
            ).1 != PatternAction::SpawnAll,
        spec_pattern_run(p, dts).cd.elapsed_ms <= spec_total(dts),
        spec_pattern_run(p, dts).cd.duration_ms == p.cd.duration_ms,
        spec_pattern_run(p, dts).icd is None,
        spec_pattern_run(p, dts).wf(),
    decreases dts.len(),
{
    if dts.len() > 0 {
        let prefix = dts.drop_last();
        lemma_total_monotone(dts);
        lemma_group_fire_rate(p, prefix);
        let q = spec_pattern_run(p, prefix);
        let last = dts.last();
        let stepped = spec_pattern_step(q, last);
        assert(q.cd.elapsed_ms + last <= spec_total(dts) < q.cd.duration_ms);
        assert(!q.cd.spec_tick_once(last).spec_finished());
        assert(stepped.1 == PatternAction::Hold && stepped.0.cd == q.cd.spec_tick_once(last)
            && stepped.0.icd is None);
        assert(spec_pattern_run(p, dts) == stepped.0);
        assert forall|k: int|
            0 <= k < dts.len() implies spec_pattern_step(
            spec_pattern_run(p, dts.take(k)),
            dts[k],
        ).1 != PatternAction::SpawnAll by {
            if k < dts.len() - 1 {
                assert(dts.take(k) =~= prefix.take(k));
                assert(dts[k] == prefix[k]);
            } else {
                assert(dts.take(k) =~= prefix);
                assert(dts[k] == last);
            }
        };
    }
}

/// Dropping the last tick of a run cannot raise its total time.
proof fn lemma_total_monotone(dts: Seq<u64>)
    requires
        dts.len() > 0,
    ensures
        spec_total(dts.drop_last()) <= spec_total(dts),
        spec_total(dts) >= 0,
    decreases dts.len(),
{
    if dts.len() == 1 {
        assert(dts.drop_last().len() == 0);
        assert(spec_total(dts.drop_last()) == 0);
    } else {
        lemma_total_monotone(dts.drop_last());
    }
}

} // verus!
