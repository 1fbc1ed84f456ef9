//! The player's side of the economy: the counters riding on the player
//! entity (score with its multiplier, power, graze, specials, kills), the
//! player's starting loadout, movement input handling, primary fire and
//! the special attack.

use vstd::prelude::*;
use crate::bullet::{Bullet, BulletGroup, BulletSpawn};
use crate::collisions::ColliderType;
use crate::formation::Formation;
use crate::geometry::{transform_wf, Rot, Transform, Vec2};
use crate::shared::{Counter, Health, Movement};
use crate::timer::{Timer, TimerMode, TIME_BOUND};

verus! {

/// Marker for the single player entity.
#[derive(Clone, Copy, Debug)]
pub struct Player;

/// Charges of the screen-clearing special attack.
#[derive(Clone, Copy, Debug, PartialEq, Eq, Structural)]
pub struct Specials {
    remaining: u8,
}

impl Specials {
    pub closed spec fn spec_get(self) -> u8 {
        self.remaining
    }

    pub fn new(number: u8) -> (s: Specials)
        ensures
            s.spec_get() == number,
    {
        Specials { remaining: number }
    }
}

impl Counter for Specials {
    type Data = u8;

    /// Additions must not run past the counter's width.
    open spec fn add_req(&self, n: u8) -> bool {
        self.spec_get() + n <= u8::MAX
    }

    /// Subtractions must not run below zero.
    open spec fn sub_req(&self, n: u8) -> bool {
        n <= self.spec_get()
    }

    fn set(&mut self, remaining_specials: u8)
        ensures
            final(self).spec_get() == remaining_specials,
    {
        self.remaining = remaining_specials;
    }

    fn get(&self) -> (n: u8)
        ensures
            n == self.spec_get(),
    {
        self.remaining
    }

    fn add(&mut self, number: u8)
        ensures
            final(self).spec_get() == old(self).spec_get() + number,
    {
        self.remaining = self.remaining + number;
    }

    fn subtract(&mut self, number: u8)
        ensures
            final(self).spec_get() == old(self).spec_get() - number,
    {
        self.remaining = self.remaining - number;
    }
}

/// Weapon power, clamped to a maximum on every write.
#[derive(Clone, Copy, Debug, PartialEq, Eq, Structural, Default)]
pub struct Power {
    current: u16,
    max: u16,
}

impl Power {
    pub closed spec fn spec_get(self) -> u16 {
        self.current
    }

    pub closed spec fn spec_max(self) -> u16 {
        self.max
    }

    /// The clamp every write path maintains.
    pub open spec fn wf(self) -> bool {
        self.spec_get() <= self.spec_max()
    }

    /// A new power counter; a starting value above the maximum is clamped
    /// to it, like every other power-vs-maximum violation.
    pub fn new(starting: u16, maximum: u16) -> (p: Power)
        ensures
            p.spec_max() == maximum,
            p.spec_get() == if starting <= maximum {
                starting
            } else {
                maximum
            },
            p.wf(),
    {
        Power { current: if starting <= maximum { starting } else { maximum }, max: maximum }
    }

    /// The value of `times` successive one-point gains, each capped at
    /// the maximum.
    pub open spec fn spec_add_ones(self, times: nat) -> Power
        decreases times,
    {
        if times == 0 {
            self
        } else {
            let prev = self.spec_add_ones((times - 1) as nat);
            Power::spec_capped(prev, prev.spec_get() + 1)
        }
    }

    /// How a capped write lands (the clamp of `set`).
    pub closed spec fn spec_capped(self, value: int) -> Power {
        Power {
            current: if value >= self.max {
                self.max
            } else {
                value as u16
            },
            max: self.max,
        }
    }

    /// Repeated one-point gains keep the maximum and the clamp.
    pub proof fn lemma_add_ones_parts(self, times: nat)
        requires
            self.wf(),
            self.spec_max() < u16::MAX,
        ensures
            self.spec_add_ones(times).spec_max() == self.spec_max(),
            self.spec_add_ones(times).wf(),
            self.spec_add_ones(times).spec_get() == if self.spec_get() + times >= self.spec_max() {
                self.spec_max() as int
            } else {
                self.spec_get() + times
            },
        decreases times,
    {
        if times >= 1 {
            self.lemma_add_ones_parts((times - 1) as nat);
        }
    }

    /// Two power counters showing the same value and maximum are the same
    /// counter.
    pub proof fn lemma_power_eq(a: Power, b: Power)
        requires
            a.spec_get() == b.spec_get(),
            a.spec_max() == b.spec_max(),
        ensures
            a == b,
    {
    }

    pub fn max(&self) -> (m: u16)
        ensures
            m == self.spec_max(),
    {
        self.max
    }
}

impl Counter for Power {
    type Data = u16;

    /// The running total may not overflow before the clamp applies.
    open spec fn add_req(&self, n: u16) -> bool {
        self.spec_get() + n <= u16::MAX
    }

    /// Subtraction floors at zero, so anything goes.
    open spec fn sub_req(&self, n: u16) -> bool {
        true
    }

    /// Writes cap at the maximum.
    fn set(&mut self, power: u16)
        ensures
            final(self).spec_max() == old(self).spec_max(),
            final(self).spec_get() == if power >= old(self).spec_max() {
                old(self).spec_max()
            } else {
                power
            },
            final(self).wf(),
    {
        if power >= self.max {
            self.current = self.max;
        } else {
            self.current = power;
        }
    }

    fn get(&self) -> (n: u16)
        ensures
            n == self.spec_get(),
    {
        self.current
    }

    /// Adding saturates at the maximum.
    fn add(&mut self, power: u16)
        ensures
            final(self).spec_max() == old(self).spec_max(),
            final(self).spec_get() == if old(self).spec_get() + power >= old(self).spec_max() {
                old(self).spec_max() as int
            } else {
                old(self).spec_get() + power
            },
            final(self).wf(),
    {
        let current = self.get();
        self.set(current + power);
    }

    /// Subtracting floors at zero (and still caps at the maximum).
    fn subtract(&mut self, power: u16)
        ensures
            final(self).spec_max() == old(self).spec_max(),
            final(self).spec_get() == if old(self).spec_get() <= power {
                0int
            } else if old(self).spec_get() - power >= old(self).spec_max() {
                old(self).spec_max() as int
            } else {
                old(self).spec_get() - power
            },
            final(self).wf(),
    {
        let current = self.get();
        self.set(if current <= power { 0 } else { current - power });
    }
}

/// Bound on the score multiplier, in fixed-point thousandths: the widest
/// nonnegative value its `i64` representation can hold.
pub const MULTIPLIER_BOUND: i64 = i64::MAX;

/// The player's score. Additions run through a pre-multiplier accumulator:
/// the displayed score is the accumulator times the multiplier, rounded
/// down, so raising the multiplier retroactively revalues everything
/// collected so far.
#[derive(Clone, Copy, Debug, PartialEq, Eq, Structural)]
pub struct Score {
    score: u64,
    pre_multiplier_score: u64,
    multiplier: i64,
}

impl Score {
    pub closed spec fn spec_get(self) -> u64 {
        self.score
    }

    pub closed spec fn spec_pre(self) -> u64 {
        self.pre_multiplier_score
    }

    /// The multiplier, in fixed-point thousandths.
    pub closed spec fn spec_multiplier(self) -> i64 {
        self.multiplier
    }

    pub open spec fn wf(self) -> bool {
        0 <= self.spec_multiplier() <= MULTIPLIER_BOUND
    }

    /// The value of one add: the accumulator grows by `n` and the score
    /// becomes the accumulator times the multiplier, rounded down.
    pub closed spec fn spec_add(self, n: int) -> Score {
        Score {
            score: ((self.pre_multiplier_score + n) * self.multiplier / 1000) as u64,
            pre_multiplier_score: (self.pre_multiplier_score + n) as u64,
            multiplier: self.multiplier,
        }
    }

    /// The value of `times` successive adds of the same amount.
    pub open spec fn spec_add_times(self, times: nat, amount: u64) -> Score
        decreases times,
    {
        if times == 0 {
            self
        } else {
            self.spec_add_times((times - 1) as nat, amount).spec_add(amount as int)
        }
    }

    /// How repeated adds move the visible parts: the accumulator grows by
    /// the total, the multiplier stands, and (once anything was added) the
    /// score is the grown accumulator through the multiplier.
    pub proof fn lemma_add_times_parts(self, times: nat, amount: u64)
        requires
            self.spec_pre() + times * amount <= u64::MAX,
        ensures
            self.spec_add_times(times, amount).spec_pre() == self.spec_pre() + times * amount,
            self.spec_add_times(times, amount).spec_multiplier() == self.spec_multiplier(),
            times >= 1 ==> self.spec_add_times(times, amount).spec_get() == (((self.spec_pre()
                + times * amount) * self.spec_multiplier() / 1000) as u64),
            times == 0 ==> self.spec_add_times(times, amount) == self,
        decreases times,
    {
        if times == 0 {
            assert(times * amount == 0) by (nonlinear_arith)
                requires
                    times == 0,
            ;
        } else {
            assert((times - 1) * amount == times * amount - amount) by (nonlinear_arith);
            self.lemma_add_times_parts((times - 1) as nat, amount);
            let prev = self.spec_add_times((times - 1) as nat, amount);
            assert(self.spec_add_times(times, amount) == prev.spec_add(amount as int));
            assert(prev.spec_add(amount as int).spec_pre() == ((prev.spec_pre() + amount) as u64));
            assert(prev.spec_pre() + amount == self.spec_pre() + times * amount);
            assert(prev.spec_add(amount as int).spec_get() == (((prev.spec_pre() + amount)
                * prev.spec_multiplier() / 1000) as u64));
        }
    }

    pub fn get_multiplier(&self) -> (m: i64)
        ensures
            m == self.spec_multiplier(),
    {
        self.multiplier
    }

    /// Whether an addition of `n` is allowed right now: the multiplier is
    /// in range and the revalued total fits. Callers outside verified
    /// code test this before calling `add`.
    pub fn can_add(&self, n: u64) -> (r: bool)
        ensures
            r == self.add_req(n),
    {
        if self.multiplier < 0 {
            return false;
        }
        match self.pre_multiplier_score.checked_add(n) {
            Some(total) => {
                proof {
                    crate::geometry::lemma_mul_bound(
                        total as int,
                        self.multiplier as int,
                        u64::MAX as int,
                        MULTIPLIER_BOUND as int,
                    );
                    vstd::arithmetic::div_mod::lemma_div_pos_is_pos(
                        total as int * self.multiplier as int,
                        1000,
                    );
                }
                (total as u128) * (self.multiplier as u128) / 1000 <= u64::MAX as u128
            },
            None => false,
        }
    }

    pub fn increase_multiplier_by(&mut self, value: i64)
        requires
            0 <= old(self).spec_multiplier() + value <= MULTIPLIER_BOUND,
        ensures
            final(self).spec_multiplier() == old(self).spec_multiplier() + value,
            final(self).spec_get() == old(self).spec_get(),
            final(self).spec_pre() == old(self).spec_pre(),
            final(self).wf(),
    {
        self.multiplier = self.multiplier + value;
    }

    pub fn set_multiplier(&mut self, value: i64)
        requires
            0 <= value <= MULTIPLIER_BOUND,
        ensures
            final(self).spec_multiplier() == value,
            final(self).spec_get() == old(self).spec_get(),
            final(self).spec_pre() == old(self).spec_pre(),
            final(self).wf(),
    {
        self.multiplier = value;
    }
}

impl Default for Score {
    /// Zero score with the opening multiplier of one and a half.
    fn default() -> (s: Score)
        ensures
            s.spec_get() == 0,
            s.spec_pre() == 0,
            s.spec_multiplier() == 1500,
            s.wf(),
    {
        Score { score: 0, pre_multiplier_score: 0, multiplier: 1500 }
    }
}

impl Counter for Score {
    type Data = u64;

    /// The multiplier must be in range and the revalued total must fit.
    open spec fn add_req(&self, n: u64) -> bool {
        &&& self.wf()
        &&& self.spec_pre() + n <= u64::MAX
        &&& (self.spec_pre() + n) * self.spec_multiplier() / 1000 <= u64::MAX
    }

    /// Subtraction floors at zero, so anything goes.
    open spec fn sub_req(&self, n: u64) -> bool {
        true
    }

    /// Bypasses the multiplier: both the score and the accumulator become
    /// the given value.
    fn set(&mut self, score: u64)
        ensures
            final(self).spec_get() == score,
            final(self).spec_pre() == score,
            final(self).spec_multiplier() == old(self).spec_multiplier(),
    {
        self.score = score;
        self.pre_multiplier_score = score;
    }

    fn get(&self) -> (n: u64)
        ensures
            n == self.spec_get(),
    {
        self.score
    }

    /// Add through the multiplier.
    fn add(&mut self, score: u64)
        ensures
            *final(self) == old(self).spec_add(score as int),
            final(self).wf(),
    {
        self.pre_multiplier_score = self.pre_multiplier_score + score;
        proof {
            crate::geometry::lemma_mul_bound(
                self.pre_multiplier_score as int,
                self.multiplier as int,
                u64::MAX as int,
                MULTIPLIER_BOUND as int,
            );
            vstd::arithmetic::div_mod::lemma_div_pos_is_pos(
                self.pre_multiplier_score as int * self.multiplier as int,
                1000,
            );
        }
        self.score = ((self.pre_multiplier_score as u128) * (self.multiplier as u128) / 1000)
            as u64;
    }

    /// Bypasses the multiplier and floors at zero.
    fn subtract(&mut self, score: u64)
        ensures
            final(self).spec_get() == if old(self).spec_get() <= score {
                0int
            } else {
                old(self).spec_get() - score
            },
            final(self).spec_pre() == final(self).spec_get(),
            final(self).spec_multiplier() == old(self).spec_multiplier(),
    {
        let current = self.get();
        self.set(if current <= score { 0 } else { current - score });
    }
}

/// Law: adding twice to the score totals the same as adding the sum in
/// one call — provided the multiplier does not move between the calls.
/// (A multiplier change between the additions revalues the whole
/// accumulator, which is why grazing mid-combo changes the outcome.)
pub proof fn lemma_score_add_additive(s: Score, x: u64, y: u64)
    requires
        s.spec_pre() + x + y <= u64::MAX,
    ensures
        s.spec_add(x as int).spec_add(y as int) == s.spec_add(x + y),
{
    assert(s.spec_add(x as int).spec_pre() == s.spec_pre() + x);
}

/// Near misses with enemy bullets.
#[derive(Clone, Copy, Debug, PartialEq, Eq, Structural, Default)]
pub struct Graze(pub u32);

impl Counter for Graze {
    type Data = u32;

    /// Additions must not run past the counter's width.
    open spec fn add_req(&self, n: u32) -> bool {
        self.0 + n <= u32::MAX
    }

    /// Subtractions must not run below zero.
    open spec fn sub_req(&self, n: u32) -> bool {
        n <= self.0
    }

    fn set(&mut self, value: u32)
        ensures
            final(self).0 == value,
    {
        self.0 = value;
    }

    fn get(&self) -> (n: u32)
        ensures
            n == self.0,
    {
        self.0
    }

    fn add(&mut self, value: u32)
        ensures
            final(self).0 == old(self).0 + value,
    {
        self.set(self.get() + value);
    }

    fn subtract(&mut self, value: u32)
        ensures
            final(self).0 == old(self).0 - value,
    {
        self.set(self.get() - value);
    }
}

/// Marker for the player's health bar UI entity.
#[derive(Clone, Copy, Debug)]
pub struct PlayerHealthBar;

/// Kills, both overall and within the current level.
#[derive(Clone, Copy, Debug, PartialEq, Eq, Structural, Default)]
pub struct EnemiesKilled {
    total: u16,
    current_level: u16,
}

impl EnemiesKilled {
    pub closed spec fn spec_total(self) -> u16 {
        self.total
    }

    pub closed spec fn spec_current_level(self) -> u16 {
        self.current_level
    }

    pub fn new() -> (k: EnemiesKilled)
        ensures
            k.spec_total() == 0,
            k.spec_current_level() == 0,
    {
        EnemiesKilled { total: 0, current_level: 0 }
    }

    pub fn get_current_level(&self) -> (n: u16)
        ensures
            n == self.spec_current_level(),
    {
        self.current_level
    }

    /// One more kill, counted both overall and for this level.
    pub fn increment(&mut self)
        requires
            old(self).spec_total() < u16::MAX,
            old(self).spec_current_level() < u16::MAX,
        ensures
            final(self).spec_total() == old(self).spec_total() + 1,
            final(self).spec_current_level() == old(self).spec_current_level() + 1,
    {
        self.total = self.total + 1;
        self.current_level = self.current_level + 1;
    }

    /// A new level begins: its tally restarts, the overall one stays.
    pub fn reset_current(&mut self)
        ensures
            final(self).spec_total() == old(self).spec_total(),
            final(self).spec_current_level() == 0,
    {
        self.current_level = 0;
    }
}

impl Counter for EnemiesKilled {
    type Data = u16;

    /// Additions must not run past the counter's width.
    open spec fn add_req(&self, n: u16) -> bool {
        self.spec_total() + n <= u16::MAX
    }

    /// Subtractions must not run below zero.
    open spec fn sub_req(&self, n: u16) -> bool {
        n <= self.spec_total()
    }

    /// Writes both tallies.
    fn set(&mut self, n: u16)
        ensures
            final(self).spec_total() == n,
            final(self).spec_current_level() == n,
    {
        self.total = n;
        self.current_level = n;
    }

    fn get(&self) -> (n: u16)
        ensures
            n == self.spec_total(),
    {
        self.total
    }

    fn add(&mut self, n: u16)
        ensures
            final(self).spec_total() == old(self).spec_total() + n,
            final(self).spec_current_level() == old(self).spec_total() + n,
    {
        let current = self.get();
        self.set(current + n);
    }

    fn subtract(&mut self, n: u16)
        ensures
            final(self).spec_total() == old(self).spec_total() - n,
            final(self).spec_current_level() == old(self).spec_total() - n,
    {
        let current = self.get();
        self.set(current - n);
    }
}

/// The cooldown between shots of the player's primary fire.
#[derive(Clone, Copy, Debug, PartialEq, Eq, Structural)]
pub struct PlayerAttackCD(pub Timer);

impl Default for PlayerAttackCD {
    /// A fifth of a second between shots.
    fn default() -> (cd: PlayerAttackCD)
        ensures
            cd.0 == Timer::spec_once(200),
            cd.0.wf(),
    {
        PlayerAttackCD(Timer::new(200, TimerMode::Once))
    }
}

/// Everything a fresh player entity starts with.
pub struct PlayerSpawn {
    pub score: Score,
    pub power: Power,
    pub health: Health,
    pub movement: Movement,
    pub kills: EnemiesKilled,
    pub specials: Specials,
    pub graze: Graze,
    pub transform: Transform,
}

/// The player's starting loadout: thirty health, power up to five
/// hundred, five specials, base speed of two hundred and forty units on
/// each axis, spawned near the bottom of the playfield.
pub fn spawn_player() -> (p: PlayerSpawn)
    ensures
        p.score.spec_get() == 0 && p.score.spec_pre() == 0 && p.score.spec_multiplier() == 1500,
        p.power.spec_get() == 0 && p.power.spec_max() == 500,
        p.health.total == 30_000 && p.health.current == 30_000,
        p.movement == (Movement {
            velocity: Vec2 { x: 240_000, y: 240_000 },
            acceleration: Vec2 { x: 0, y: 0 },
            local: false,
            v_local: Vec2 { x: 0, y: 0 },
            a_local: Vec2 { x: 0, y: 0 },
        }),
        p.kills.spec_total() == 0 && p.kills.spec_current_level() == 0,
        p.specials.spec_get() == 5,
        p.graze.0 == 0,
        p.transform.pos == (Vec2 { x: 0i64, y: -300_000i64 }),
        transform_wf(p.transform),
{
    PlayerSpawn {
        score: Score::default(),
        power: Power::new(0, 500),
        health: Health::new(30_000, None),
        movement: Movement::new(
            Vec2 { x: 240_000, y: 240_000 },
            Vec2 { x: 0, y: 0 },
            false,
            Vec2 { x: 0, y: 0 },
            Vec2 { x: 0, y: 0 },
        ),
        kills: EnemiesKilled::new(),
        specials: Specials::new(5),
        graze: Graze(0),
        transform: Transform {
            pos: Vec2 { x: 0, y: -300_000 },
            layer: 100,
            rot: Rot { c: 1000, s: 0 },
        },
    }
}

/// What firing the special asks the world to do.
pub struct SpecialAttackOutcome {
    /// Every live enemy bullet despawns, each worth one point of score.
    pub despawn: Vec<crate::event::DespawnEvent>,
    /// A ring of thirty-five heavy player bullets bursts outward.
    pub burst: Vec<BulletSpawn>,
}

/// The despawns a special attack requests: one per live enemy bullet,
/// cascading, worth one point of score each.
pub open spec fn spec_special_despawns(bullets: Seq<(u64, ColliderType)>) -> Seq<
    crate::event::DespawnEvent,
>
    decreases bullets.len(),
{
    if bullets.len() == 0 {
        Seq::empty()
    } else {
        let prev = spec_special_despawns(bullets.drop_last());
        if bullets.last().1 == ColliderType::EnemyBullet {
            prev.push(
                crate::event::DespawnEvent {
                    entity: bullets.last().0,
                    recursive: true,
                    drop_score: 1u8,
                    drop_power: 0u8,
                },
            )
        } else {
            prev
        }
    }
}

/// How many bullets the special's ring bursts outward.
pub const SPECIAL_BURST_COUNT: u16 = 35;

/// The ring the special attack fires from.
pub open spec fn spec_special_ring() -> Formation {
    Formation {
        kind: crate::formation::FormationShape::Circular,
        randomised: false,
        ratio: None,
        radius: Some(20_000i64),
        amplitude: None,
        frequency: None,
        target: None,
        entity_size: None,
    }
}

/// The forward drift of the special's bullets.
pub open spec fn spec_special_movement() -> Movement {
    Movement {
        velocity: Vec2 { x: 0, y: 0 },
        acceleration: Vec2 { x: 0, y: 0 },
        local: true,
        v_local: Vec2 { x: 0i64, y: 30_000i64 },
        a_local: Vec2 { x: 0, y: 0 },
    }
}

/// Fire the special attack, rate-limited only by the charge count: with
/// no charge left nothing happens; otherwise one charge is spent, every
/// live enemy bullet despawns (with cascade, each worth one point of
/// score), and a ring of thirty-five fifty-point player bullets bursts
/// outward from the player.
pub fn special_attack(
    origin: Transform,
    specials: &mut Specials,
    bullets: &Vec<(u64, ColliderType)>,
) -> (out: SpecialAttackOutcome)
    requires
        transform_wf(origin),
    ensures
        old(specials).spec_get() == 0 ==> {
            &&& *final(specials) == *old(specials)
            &&& out.despawn@.len() == 0
            &&& out.burst@.len() == 0
        },
        old(specials).spec_get() > 0 ==> {
            &&& final(specials).spec_get() == old(specials).spec_get() - 1
            &&& out.despawn@ == spec_special_despawns(bullets@)
            &&& out.burst@.len() == SPECIAL_BURST_COUNT
            &&& forall|k: int|
                0 <= k < SPECIAL_BURST_COUNT ==> {
                    let b = #[trigger] out.burst@[k];
                    &&& b.bullet.spec_damage() == 50_000
                    &&& b.bullet.spec_max() == 50_000
                    &&& b.collider_type == ColliderType::PlayerBullet
                    &&& b.movement == spec_special_movement()
                    &&& crate::formation::transform_post(
                        spec_special_ring(),
                        k,
                        SPECIAL_BURST_COUNT as int,
                        origin,
                        b.transform,
                    )
                }
        },
{
    if Counter::get(specials) == 0 {
        return SpecialAttackOutcome { despawn: Vec::new(), burst: Vec::new() };
    }
    Counter::subtract(specials, 1);

    let mut despawn: Vec<crate::event::DespawnEvent> = Vec::new();
    let n = bullets.len();
    let mut idx: usize = 0;
    while idx < n
        invariant
            n == bullets@.len(),
            idx <= n,
            despawn@ == spec_special_despawns(bullets@.take(idx as int)),
        decreases n - idx,
    {
        let (entity, bullet_kind) = bullets[idx];
        proof {
            assert(bullets@.take(idx + 1 as int).drop_last() =~= bullets@.take(idx as int));
            assert(bullets@.take(idx + 1 as int).last() == bullets@[idx as int]);
        }
        if matches!(bullet_kind, ColliderType::EnemyBullet) {
            despawn.push(crate::event::DespawnEvent::new(entity, true).with_score(1));
        }
        proof {
            assert(despawn@ =~= spec_special_despawns(bullets@.take(idx + 1 as int)));
        }
        idx += 1;
    }
    proof {
        assert(bullets@.take(n as int) =~= bullets@);
    }

    let group = BulletGroup {
        formation: Formation::circular(false, 20_000),
        origin,
        number: SPECIAL_BURST_COUNT,
        collider_type: ColliderType::PlayerBullet,
        bullet: Bullet::new(50_000, 50_000),
    };
    let movement = Movement::new(
        Vec2 { x: 0, y: 0 },
        Vec2 { x: 0, y: 0 },
        true,
        Vec2 { x: 0, y: 30_000 },
        Vec2 { x: 0, y: 0 },
    );
    let burst = group.spawn_all(movement);
    SpecialAttackOutcome { despawn, burst }
}

/// One bullet of the primary spread: its world velocity and the shared
/// forward acceleration in the bullet's own frame.
pub open spec fn spec_spread_movement(velocity: Vec2) -> Movement {
    Movement {
        velocity,
        acceleration: Vec2 { x: 0, y: 0 },
        local: true,
        v_local: Vec2 { x: 0, y: 0 },
        a_local: Vec2 { x: 0i64, y: 10_000i64 },
    }
}

/// Tick the primary-fire cooldown and, when it permits and the trigger is
/// held and a player exists, release the fixed three-bullet spread —
/// straight up and two angled — just above the player, restarting the
/// cooldown. Without all three conditions nothing fires and the cooldown
/// simply advances (staying complete until spent).
pub fn spawn_player_bullet(
    cooldown: &mut PlayerAttackCD,
    dt: u64,
    fire_held: bool,
    player: Option<Transform>,
) -> (shots: Vec<BulletSpawn>)
    requires
        old(cooldown).0.wf(),
        old(cooldown).0.mode is Once,
        dt <= TIME_BOUND,
        match player {
            Some(t) => transform_wf(t),
            None => true,
        },
    ensures
        ({
            let ticked = old(cooldown).0.spec_tick_once(dt);
            let fires = ticked.spec_finished() && fire_held && player is Some;
            &&& !fires ==> final(cooldown).0 == ticked && shots@.len() == 0
            &&& fires ==> {
                let p = player.unwrap();
                &&& final(cooldown).0 == ticked.spec_reset()
                &&& shots@.len() == 3
                &&& (forall|k: int|
                    0 <= k < 3 ==> {
                        let b = #[trigger] shots@[k];
                        &&& b.bullet.spec_damage() == 5000
                        &&& b.bullet.spec_max() == 20_000
                        &&& b.collider_type == ColliderType::PlayerBullet
                        &&& b.transform.pos.x == p.pos.x
                        &&& b.transform.pos.y == p.pos.y + 5000
                        &&& b.transform.layer == p.layer
                        &&& b.transform.rot == (Rot { c: 1000i64, s: 0i64 })
                    })
                &&& shots@[0].movement == spec_spread_movement(Vec2 { x: 0i64, y: 5000i64 })
                &&& shots@[1].movement == spec_spread_movement(Vec2 { x: -5000i64, y: 4000i64 })
                &&& shots@[2].movement == spec_spread_movement(Vec2 { x: 5000i64, y: 4000i64 })
            }
        }),
{
    cooldown.0.tick(dt);
    if !cooldown.0.finished() {
        return Vec::new();
    }
    if !fire_held {
        return Vec::new();
    }
    let p = match player {
        Some(t) => t,
        None => {
            return Vec::new();
        },
    };
    let spawn_point = Transform {
        pos: Vec2 { x: p.pos.x, y: p.pos.y + 5000 },
        layer: p.layer,
        rot: Rot { c: 1000, s: 0 },
    };
    let mut shots: Vec<BulletSpawn> = Vec::new();
    shots.push(
        BulletSpawn {
            transform: spawn_point,
            bullet: Bullet::new(5000, 20_000),
            collider_type: ColliderType::PlayerBullet,
            movement: Movement::new(
                Vec2 { x: 0, y: 5000 },
                Vec2 { x: 0, y: 0 },
                true,
                Vec2 { x: 0, y: 0 },
                Vec2 { x: 0, y: 10_000 },
            ),
        },
    );
    shots.push(
        BulletSpawn {
            transform: spawn_point,
            bullet: Bullet::new(5000, 20_000),
            collider_type: ColliderType::PlayerBullet,
            movement: Movement::new(
                Vec2 { x: -5000, y: 4000 },
                Vec2 { x: 0, y: 0 },
                true,
                Vec2 { x: 0, y: 0 },
                Vec2 { x: 0, y: 10_000 },
            ),
        },
    );
    shots.push(
        BulletSpawn {
            transform: spawn_point,
            bullet: Bullet::new(5000, 20_000),
            collider_type: ColliderType::PlayerBullet,
            movement: Movement::new(
                Vec2 { x: 5000, y: 4000 },
                Vec2 { x: 0, y: 0 },
                true,
                Vec2 { x: 0, y: 0 },
                Vec2 { x: 0, y: 10_000 },
            ),
        },
    );
    cooldown.0.reset();
    shots
}

/// Texture-atlas index of the player sprite banking left.
pub const SPRITE_LEFT: u8 = 3;

/// Texture-atlas index of the player sprite banking right.
pub const SPRITE_RIGHT: u8 = 4;

/// Texture-atlas index of the player sprite flying straight.
pub const SPRITE_NEUTRAL: u8 = 5;

/// What one tick of player steering asks the world to do: the sprite
/// orientation index and the linear velocity for the physics
/// collaborator.
pub struct PlayerMove {
    pub sprite_index: u8,
    pub linvel: Vec2,
}

/// The horizontal input sign: right counts plus one, left minus one, so
/// both or neither cancel out.
pub open spec fn spec_axis(positive: bool, negative: bool) -> int {
    (if positive {
        1int
    } else {
        0int
    }) - (if negative {
        1int
    } else {
        0int
    })
}

/// Steer the player from the arrow keys. The input signs form a direction
/// that is normalised (so diagonals are no faster), scaled by the
/// player's speed, and slowed by an extra four fifths while focused; the
/// focus key's meaning follows the inversion option. The sprite banks
/// with the horizontal sign.
pub fn move_player(
    movement: &Movement,
    right: bool,
    left: bool,
    up: bool,
    down: bool,
    focus_held: bool,
    options: &crate::shared::GameOptions,
) -> (m: PlayerMove)
    requires
        crate::shared::movement_bounded(*movement),
    ensures
        m.sprite_index == if spec_axis(right, left) == 1 {
            SPRITE_RIGHT
        } else if spec_axis(right, left) == -1 {
            SPRITE_LEFT
        } else {
            SPRITE_NEUTRAL
        },
        ({
            let dir = Vec2 {
                x: (1000 * spec_axis(right, left)) as i64,
                y: (1000 * spec_axis(up, down)) as i64,
            };
            let divisor = if options.spec_focus() != focus_held {
                1800int
            } else {
                1000int
            };
            &&& m.linvel.x == crate::geometry::spec_unit_x(dir) * movement.velocity.x / divisor
            &&& m.linvel.y == crate::geometry::spec_unit_y(dir) * movement.velocity.y / divisor
        }),
{
    let x: i64 = (if right {
        1i64
    } else {
        0i64
    }) - (if left {
        1i64
    } else {
        0i64
    });
    let y: i64 = (if up {
        1i64
    } else {
        0i64
    }) - (if down {
        1i64
    } else {
        0i64
    });

    let sprite_index = if x == 1 {
        SPRITE_RIGHT
    } else if x == -1 {
        SPRITE_LEFT
    } else {
        SPRITE_NEUTRAL
    };

    let focus = if options.get_focus() {
        !focus_held
    } else {
        focus_held
    };
    let divisor: i64 = if focus {
        1800
    } else {
        1000
    };

    let delta = crate::geometry::unit_or_zero(Vec2 { x: 1000 * x, y: 1000 * y });
    proof {
        crate::geometry::lemma_mul_bound(delta.x as int, movement.velocity.x as int, 1000, 1_000_000_000);
        crate::geometry::lemma_mul_bound(delta.y as int, movement.velocity.y as int, 1000, 1_000_000_000);
    }
    let linvel = Vec2 {
        x: crate::fixed::div_floor(delta.x * movement.velocity.x, divisor),
        y: crate::fixed::div_floor(delta.y * movement.velocity.y, divisor),
    };
    PlayerMove { sprite_index, linvel }
}

} // verus!
