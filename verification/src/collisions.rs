//! The per-tick collision pipeline: categories and collision groups for
//! every kind of game object, the table of this tick's overlap records,
//! its ingest phase and its cleanup phase.

use vstd::prelude::*;
use std::collections::HashMap;
use crate::geometry::Vec2;
use crate::shared::Movement;

verus! {

broadcast use vstd::std_specs::hash::group_hash_axioms;

/// Collision-group memberships, one bit per category.
pub const PLAYER_COL: u32 = 1;

pub const WALL_COL: u32 = 2;

pub const ENEMY_COL: u32 = 4;

pub const ENEMY_BULLET_COL: u32 = 8;

pub const PLAYER_BULLET_COL: u32 = 16;

pub const COLLECTABLE_COL: u32 = 32;

pub const GRAZE_COL: u32 = 64;

/// What each category may collide with.
pub const PLAYER_FILTER: u32 = ENEMY_COL | ENEMY_BULLET_COL | WALL_COL | COLLECTABLE_COL
    | GRAZE_COL;

pub const ENEMY_FILTER: u32 = PLAYER_COL | PLAYER_BULLET_COL | WALL_COL;

pub const WALL_FILTER: u32 = ENEMY_COL | PLAYER_COL | PLAYER_BULLET_COL | ENEMY_BULLET_COL
    | COLLECTABLE_COL;

pub const PLAYER_BULLET_FILTER: u32 = ENEMY_COL | WALL_COL;

pub const ENEMY_BULLET_FILTER: u32 = PLAYER_COL | WALL_COL;

pub const COLLECTABLE_FILTER: u32 = PLAYER_COL | WALL_COL;

pub const GRAZE_FILTER: u32 = PLAYER_COL;

/// The flag the physics collaborator sets on an overlap event when one
/// side is a sensor.
pub const SENSOR_FLAG: u32 = 1;

/// The category tag of a collidable entity, used to route its overlap
/// records to the right handler.
#[derive(Clone, Copy, PartialEq, Eq, Structural, Debug)]
pub enum ColliderType {
    Player,
    PlayerBullet,
    Enemy,
    EnemyBullet,
    Wall,
    Collectable,
    Graze,
    Neutral,
}

/// Membership and filter masks handed to the physics collaborator.
#[derive(Clone, Copy, PartialEq, Eq, Structural, Debug)]
pub struct CollisionGroups {
    pub memberships: u32,
    pub filters: u32,
}

impl ColliderType {
    /// The collision groups belonging to each category; a neutral entity
    /// collides with nothing.
    pub fn collision_group(&self) -> (g: CollisionGroups)
        ensures
            g == match *self {
                ColliderType::Player => CollisionGroups {
                    memberships: PLAYER_COL,
                    filters: PLAYER_FILTER,
                },
                ColliderType::PlayerBullet => CollisionGroups {
                    memberships: PLAYER_BULLET_COL,
                    filters: PLAYER_BULLET_FILTER,
                },
                ColliderType::Enemy => CollisionGroups {
                    memberships: ENEMY_COL,
                    filters: ENEMY_FILTER,
                },
                ColliderType::EnemyBullet => CollisionGroups {
                    memberships: ENEMY_BULLET_COL,
                    filters: ENEMY_BULLET_FILTER,
                },
                ColliderType::Wall => CollisionGroups {
                    memberships: WALL_COL,
                    filters: WALL_FILTER,
                },
                ColliderType::Collectable => CollisionGroups {
                    memberships: COLLECTABLE_COL,
                    filters: COLLECTABLE_FILTER,
                },
                ColliderType::Graze => CollisionGroups {
                    memberships: GRAZE_COL,
                    filters: GRAZE_FILTER,
                },
                ColliderType::Neutral => CollisionGroups { memberships: 0, filters: 0 },
            },
    {
        match self {
            ColliderType::Player => CollisionGroups {
                memberships: PLAYER_COL,
                filters: PLAYER_FILTER,
            },
            ColliderType::PlayerBullet => CollisionGroups {
                memberships: PLAYER_BULLET_COL,
                filters: PLAYER_BULLET_FILTER,
            },
            ColliderType::Enemy => CollisionGroups { memberships: ENEMY_COL, filters: ENEMY_FILTER },
            ColliderType::EnemyBullet => CollisionGroups {
                memberships: ENEMY_BULLET_COL,
                filters: ENEMY_BULLET_FILTER,
            },
            ColliderType::Wall => CollisionGroups { memberships: WALL_COL, filters: WALL_FILTER },
            ColliderType::Collectable => CollisionGroups {
                memberships: COLLECTABLE_COL,
                filters: COLLECTABLE_FILTER,
            },
            ColliderType::Graze => CollisionGroups { memberships: GRAZE_COL, filters: GRAZE_FILTER },
            ColliderType::Neutral => CollisionGroups { memberships: 0, filters: 0 },
        }
    }
}

/// A raw overlap notification from the physics collaborator: two opaque
/// entity handles, event flags, and whether the overlap began or ended.
#[derive(Clone, Copy, PartialEq, Eq, Structural, Debug)]
pub struct CollisionEvent {
    pub entity1: u64,
    pub entity2: u64,
    pub flags: u32,
    pub started: bool,
}

/// One entity's view of one overlap event: the other party's category and
/// handle, the event flags, and whether the overlap began or ended.
#[derive(Clone, Copy, PartialEq, Eq, Structural, Debug)]
pub struct CollisionData {
    pub other_type: ColliderType,
    pub other_entity: u64,
    pub flags: u32,
    pub started: bool,
}

/// This tick's collision table: per-entity lists of overlap records, in
/// arrival order, plus the list of entities involved this tick (the
/// collision marker tags). Rebuilt from nothing every tick.
pub struct Collisions {
    pub table: HashMap<u64, Vec<CollisionData>>,
    pub marked: Vec<u64>,
}

impl Collisions {
    /// Every entity with records is marked as involved this tick.
    pub open spec fn wf(self) -> bool {
        forall|e: u64| self.table@.dom().contains(e) ==> self.marked@.contains(e)
    }

    /// The records the table holds for an entity, oldest first.
    pub open spec fn records_of(self, e: u64) -> Seq<CollisionData> {
        if self.table@.dom().contains(e) {
            self.table@[e]@
        } else {
            Seq::empty()
        }
    }

    pub fn new() -> (c: Collisions)
        ensures
            c.wf(),
            c.marked@ == Seq::<u64>::empty(),
            forall|e: u64| c.records_of(e) == Seq::<CollisionData>::empty(),
    {
        let c = Collisions { table: HashMap::new(), marked: Vec::new() };
        proof {
            assert(forall|e: u64| !c.table@.dom().contains(e));
        }
        c
    }

    /// Append a record for one entity and mark it involved.
    fn push_record(&mut self, e: u64, data: CollisionData)
        requires
            old(self).wf(),
        ensures
            final(self).wf(),
            final(self).records_of(e) == old(self).records_of(e).push(data),
            forall|o: u64| o != e ==> final(self).records_of(o) == old(self).records_of(o),
            final(self).marked@ == if old(self).marked@.contains(e) {
                old(self).marked@
            } else {
                old(self).marked@.push(e)
            },
            forall|o: u64|
                final(self).marked@.contains(o) <==> old(self).marked@.contains(o) || o == e,
    {
        let mut records = match self.table.remove(&e) {
            Some(v) => v,
            None => Vec::new(),
        };
        records.push(data);
        self.table.insert(e, records);
        if !contains_entity(&self.marked, e) {
            self.marked.push(e);
        }
        proof {
            assert(final(self).records_of(e) =~= old(self).records_of(e).push(data));
            if !old(self).marked@.contains(e) {
                assert(final(self).marked@[final(self).marked@.len() - 1] == e);
                assert(final(self).marked@.contains(e));
            }
            assert forall|o: u64| final(self).table@.dom().contains(o) implies final(self).marked@.contains(o) by {
                if o != e {
                    assert(old(self).marked@.contains(o));
                    let j = choose|j: int|
                        0 <= j < old(self).marked@.len() && old(self).marked@[j] == o;
                    assert(final(self).marked@[j] == o);
                }
            };
            assert forall|o: u64| o != e implies final(self).records_of(o) == old(self).records_of(o) by {
                assert(final(self).table@.dom().contains(o) == old(self).table@.dom().contains(o));
                if old(self).table@.dom().contains(o) {
                    assert(final(self).table@[o] == old(self).table@[o]);
                }
            };
            assert forall|o: u64|
                final(self).marked@.contains(o) <==> old(self).marked@.contains(o) || o
                    == e by {
                if old(self).marked@.contains(e) {
                } else {
                    if old(self).marked@.contains(o) {
                        let j = choose|j: int|
                            0 <= j < old(self).marked@.len() && old(self).marked@[j] == o;
                        assert(final(self).marked@[j] == o);
                    }
                    if final(self).marked@.contains(o) && o != e {
                        let j = choose|j: int|
                            0 <= j < final(self).marked@.len() && final(self).marked@[j] == o;
                        assert(j < old(self).marked@.len());
                        assert(old(self).marked@[j] == o);
                    }
                }
            };
        }
    }
}

/// Whether a list of entity handles holds the given one.
fn contains_entity(list: &Vec<u64>, e: u64) -> (r: bool)
    ensures
        r == list@.contains(e),
{
    let mut k: usize = 0;
    while k < list.len()
        invariant
            k <= list@.len(),
            forall|j: int| 0 <= j < k ==> list@[j] != e,
        decreases list@.len() - k,
    {
        if list[k] == e {
            return true;
        }
        k += 1;
    }
    false
}

/// The records an entity gains from one event: its own view of the
/// overlap, provided both parties carry a category; entities without one
/// are ignored entirely.
pub open spec fn spec_event_records(
    ev: CollisionEvent,
    colliders: Map<u64, ColliderType>,
    e: u64,
) -> Seq<CollisionData> {
    if colliders.dom().contains(ev.entity1) && colliders.dom().contains(ev.entity2) {
        let as_first = CollisionData {
            other_type: colliders[ev.entity2],
            other_entity: ev.entity2,
            flags: ev.flags,
            started: ev.started,
        };
        let as_second = CollisionData {
            other_type: colliders[ev.entity1],
            other_entity: ev.entity1,
            flags: ev.flags,
            started: ev.started,
        };
        if e == ev.entity1 && e == ev.entity2 {
            seq![as_first, as_second]
        } else if e == ev.entity1 {
            seq![as_first]
        } else if e == ev.entity2 {
            seq![as_second]
        } else {
            Seq::empty()
        }
    } else {
        Seq::empty()
    }
}

/// The records an entity gains from a stream of events, in order.
pub open spec fn spec_ingested(
    events: Seq<CollisionEvent>,
    colliders: Map<u64, ColliderType>,
    e: u64,
) -> Seq<CollisionData>
    decreases events.len(),
{
    if events.len() == 0 {
        Seq::empty()
    } else {
        spec_ingested(events.drop_last(), colliders, e) + spec_event_records(
            events.last(),
            colliders,
            e,
        )
    }
}

/// Ingest this tick's raw overlap events: each event whose two entities
/// both carry a category appends one record to each entity's list and
/// marks both as involved; events naming an untagged entity leave no
/// trace.
#[verifier::rlimit(60)]
pub fn handle_collisions(
    collisions: &mut Collisions,
    colliders: &HashMap<u64, ColliderType>,
    events: &Vec<CollisionEvent>,
)
    requires
        old(collisions).wf(),
    ensures
        final(collisions).wf(),
        forall|e: u64|
            final(collisions).records_of(e) == old(collisions).records_of(e) + spec_ingested(
                events@,
                colliders@,
                e,
            ),
        forall|e: u64|
            final(collisions).marked@.contains(e) <==> old(collisions).marked@.contains(e)
                || spec_ingested(events@, colliders@, e).len() > 0,
{
    let n = events.len();
    let mut idx: usize = 0;
    while idx < n
        invariant
            collisions.wf(),
            n == events@.len(),
            idx <= n,
            forall|e: u64|
                collisions.records_of(e) == old(collisions).records_of(e) + spec_ingested(
                    events@.take(idx as int),
                    colliders@,
                    e,
                ),
            forall|e: u64|
                collisions.marked@.contains(e) <==> old(collisions).marked@.contains(e)
                    || spec_ingested(events@.take(idx as int), colliders@, e).len() > 0,
        decreases n - idx,
    {
        let ev = events[idx];
        let ghost prev = *collisions;
        let t1 = colliders.get(&ev.entity1);
        let t2 = colliders.get(&ev.entity2);
        match (t1, t2) {
            (Some(type1), Some(type2)) => {
                let data1 = CollisionData {
                    other_type: *type2,
                    other_entity: ev.entity2,
                    flags: ev.flags,
                    started: ev.started,
                };
                let data2 = CollisionData {
                    other_type: *type1,
                    other_entity: ev.entity1,
                    flags: ev.flags,
                    started: ev.started,
                };
                collisions.push_record(ev.entity1, data1);
                collisions.push_record(ev.entity2, data2);
            },
            _ => {},
        }
        proof {
            assert(events@.take(idx + 1 as int).drop_last() =~= events@.take(idx as int));
            assert(events@.take(idx + 1 as int).last() == ev);
            assert forall|e: u64|
                collisions.records_of(e) == old(collisions).records_of(e) + spec_ingested(
                    events@.take(idx + 1 as int),
                    colliders@,
                    e,
                ) by {
                assert(collisions.records_of(e) =~= prev.records_of(e) + spec_event_records(
                    ev,
                    colliders@,
                    e,
                ));
                assert(prev.records_of(e) + spec_event_records(ev, colliders@, e) =~= old(
                    collisions,
                ).records_of(e) + spec_ingested(events@.take(idx + 1 as int), colliders@, e));
            };
            assert forall|e: u64|
                collisions.marked@.contains(e) <==> old(collisions).marked@.contains(e)
                    || spec_ingested(events@.take(idx + 1 as int), colliders@, e).len()
                    > 0 by {
                assert(spec_ingested(events@.take(idx + 1 as int), colliders@, e).len()
                    == spec_ingested(events@.take(idx as int), colliders@, e).len()
                    + spec_event_records(ev, colliders@, e).len());
                assert(spec_event_records(ev, colliders@, e).len() > 0 <==> (
                colliders@.dom().contains(ev.entity1) && colliders@.dom().contains(ev.entity2) && (
                e == ev.entity1 || e == ev.entity2)));
            };
        }
        idx += 1;
    }
    proof {
        assert(events@.take(n as int) =~= events@);
    }
}

/// Tear the table down at the end of the tick: every entity marked as
/// involved loses its records and its mark, so nothing outlives the tick.
pub fn cleanup_collisions(collisions: &mut Collisions)
    requires
        old(collisions).wf(),
    ensures
        final(collisions).wf(),
        final(collisions).marked@ == Seq::<u64>::empty(),
        final(collisions).table@ == Map::<u64, Vec<CollisionData>>::empty(),
        forall|e: u64| final(collisions).records_of(e) == Seq::<CollisionData>::empty(),
{
    let n = collisions.marked.len();
    let mut idx: usize = 0;
    proof {
        assert forall|e: u64| collisions.table@.dom().contains(e) implies exists|j: int|
            0 <= j < n && collisions.marked@[j] == e by {
            assert(collisions.marked@.contains(e));
        };
    }
    while idx < n
        invariant
            n == collisions.marked@.len(),
            idx <= n,
            forall|e: u64|
                collisions.table@.dom().contains(e) ==> exists|j: int|
                    idx <= j < n && collisions.marked@[j] == e,
        decreases n - idx,
    {
        let e = collisions.marked[idx];
        collisions.table.remove(&e);
        idx += 1;
        proof {
            assert forall|o: u64| collisions.table@.dom().contains(o) implies exists|j: int|
                idx <= j < n && collisions.marked@[j] == o by {
                let j = choose|j: int| idx - 1 <= j < n && collisions.marked@[j] == o;
                assert(o != e);
                assert(j != idx - 1);
            };
        }
    }
    collisions.marked.clear();
    proof {
        assert(collisions.table@ =~= Map::<u64, Vec<CollisionData>>::empty());
    }
}

/// Damage a player bullet deals on a begin-event, scaled by the player's
/// power: the bullet's envelope is mapped from its floor to its ceiling
/// by the fraction of full power (the floor itself when the maximum power
/// is zero).
pub open spec fn spec_scaled_damage(b: crate::bullet::Bullet, p: crate::player::Power) -> int {
    if p.spec_max() > 0 {
        b.spec_damage() + p.spec_get() * (b.spec_max() - b.spec_damage()) / (p.spec_max() as int)
    } else {
        b.spec_damage() as int
    }
}

/// Evaluate the power-scaled damage; it never leaves the envelope.
pub fn scaled_damage(b: &crate::bullet::Bullet, p: &crate::player::Power) -> (d: i64)
    requires
        b.wf(),
        p.wf(),
    ensures
        d == spec_scaled_damage(*b, *p),
        b.spec_damage() <= d <= b.spec_max(),
{
    let maximum = p.max();
    if maximum == 0 {
        return b.get_damage();
    }
    let low = b.get_damage();
    let high = b.get_max();
    let current = crate::shared::Counter::get(p);
    proof {
        crate::geometry::lemma_mul_bound(current as int, high - low, 65535, 2_000_000_000);
        assert(current as int * (high - low) <= maximum as int * (high - low)) by (nonlinear_arith)
            requires
                0 <= current <= maximum && high - low >= 0,
        ;
        vstd::arithmetic::div_mod::lemma_div_is_ordered(
            current as int * (high - low),
            maximum as int * (high - low),
            maximum as int,
        );
        vstd::arithmetic::div_mod::lemma_div_multiples_vanish(high - low, maximum as int);
        vstd::arithmetic::div_mod::lemma_div_pos_is_pos(current as int * (high - low), maximum as int);
    }
    low + (current as i64) * (high - low) / (maximum as i64)
}

/// The damage and despawn requests one of a bullet's overlap records
/// yields. Hitting the player or an enemy as the overlap begins deals the
/// bullet's damage (power-scaled for a player bullet, and skipped
/// entirely when no player power is at hand) and despawns the bullet
/// without cascade; leaving a wall's sensor region despawns the bullet
/// without cascade; everything else is ignored.
pub open spec fn spec_bullet_record_outcome(
    entity: u64,
    bullet_type: ColliderType,
    b: crate::bullet::Bullet,
    power: Option<crate::player::Power>,
    r: CollisionData,
) -> (Seq<crate::event::TakeDamageEvent>, Seq<crate::event::DespawnEvent>) {
    let scaling = bullet_type == ColliderType::PlayerBullet && r.started;
    if scaling && power is None {
        (Seq::empty(), Seq::empty())
    } else {
        let dealt = if scaling {
            spec_scaled_damage(b, power.unwrap()) as i64
        } else {
            b.spec_damage()
        };
        let hit = crate::event::TakeDamageEvent {
            entity: r.other_entity,
            entity_type: Some(r.other_type),
            damage: dealt,
        };
        let gone = crate::event::DespawnEvent {
            entity,
            recursive: false,
            drop_score: 0u8,
            drop_power: 0u8,
        };
        if (r.other_type == ColliderType::Player || r.other_type == ColliderType::Enemy)
            && r.started {
            (seq![hit], seq![gone])
        } else if r.other_type == ColliderType::Wall && !r.started {
            (Seq::empty(), seq![gone])
        } else {
            (Seq::empty(), Seq::empty())
        }
    }
}

/// The outcomes of a whole record list, in order.
pub open spec fn spec_bullet_outcomes(
    entity: u64,
    bullet_type: ColliderType,
    b: crate::bullet::Bullet,
    power: Option<crate::player::Power>,
    rs: Seq<CollisionData>,
) -> (Seq<crate::event::TakeDamageEvent>, Seq<crate::event::DespawnEvent>)
    decreases rs.len(),
{
    if rs.len() == 0 {
        (Seq::empty(), Seq::empty())
    } else {
        let prev = spec_bullet_outcomes(entity, bullet_type, b, power, rs.drop_last());
        let last = spec_bullet_record_outcome(entity, bullet_type, b, power, rs.last());
        (prev.0 + last.0, prev.1 + last.1)
    }
}

/// What a bullet's collision handler asks the world to do.
pub struct BulletColOutcome {
    pub damage: Vec<crate::event::TakeDamageEvent>,
    pub despawn: Vec<crate::event::DespawnEvent>,
}

/// Resolve one bullet's overlap records for this tick (see
/// `spec_bullet_record_outcome` for what each record yields).
pub fn handle_bullet_col(
    entity: u64,
    bullet_type: ColliderType,
    bullet: &crate::bullet::Bullet,
    player_power: Option<&crate::player::Power>,
    records: &Vec<CollisionData>,
) -> (out: BulletColOutcome)
    requires
        bullet.wf(),
        match player_power {
            Some(p) => p.wf(),
            None => true,
        },
    ensures
        (out.damage@, out.despawn@) == spec_bullet_outcomes(
            entity,
            bullet_type,
            *bullet,
            match player_power {
                Some(p) => Some(*p),
                None => None,
            },
            records@,
        ),
{
    let ghost power_val = match player_power {
        Some(p) => Some(*p),
        None => None,
    };
    let mut damage: Vec<crate::event::TakeDamageEvent> = Vec::new();
    let mut despawn: Vec<crate::event::DespawnEvent> = Vec::new();
    let n = records.len();
    let mut idx: usize = 0;
    while idx < n
        invariant
            n == records@.len(),
            idx <= n,
            bullet.wf(),
            match player_power {
                Some(p) => p.wf() && power_val == Some(*p),
                None => power_val == None::<crate::player::Power>,
            },
            (damage@, despawn@) == spec_bullet_outcomes(
                entity,
                bullet_type,
                *bullet,
                power_val,
                records@.take(idx as int),
            ),
        decreases n - idx,
    {
        let r = records[idx];
        proof {
            assert(records@.take(idx + 1 as int).drop_last() =~= records@.take(idx as int));
            assert(records@.take(idx + 1 as int).last() == r);
        }
        let scaling = matches!(bullet_type, ColliderType::PlayerBullet) && r.started;
        let mut skip = false;
        let dealt: i64 = if scaling {
            match player_power {
                Some(p) => scaled_damage(bullet, p),
                None => {
                    skip = true;
                    0
                },
            }
        } else {
            bullet.get_damage()
        };
        if !skip {
            let relevant_hit = (matches!(r.other_type, ColliderType::Player) || matches!(
                r.other_type,
                ColliderType::Enemy,
            )) && r.started;
            if relevant_hit {
                damage.push(
                    crate::event::TakeDamageEvent::new(r.other_entity, Some(r.other_type), dealt),
                );
                despawn.push(crate::event::DespawnEvent::new(entity, false));
            } else if matches!(r.other_type, ColliderType::Wall) && !r.started {
                despawn.push(crate::event::DespawnEvent::new(entity, false));
            }
        }
        proof {
            let stepped = spec_bullet_outcomes(
                entity,
                bullet_type,
                *bullet,
                power_val,
                records@.take(idx + 1 as int),
            );
            assert(damage@ =~= stepped.0);
            assert(despawn@ =~= stepped.1);
        }
        idx += 1;
    }
    proof {
        assert(records@.take(n as int) =~= records@);
    }
    BulletColOutcome { damage, despawn }
}

/// Contact damage the player takes from touching an enemy.
pub const PLAYER_CONTACT_DAMAGE: i64 = 10_000;

/// The damage events the player's records yield: a fixed ten points
/// against the player for each enemy contact that begins this tick.
pub open spec fn spec_player_hits(player: u64, rs: Seq<CollisionData>) -> Seq<
    crate::event::TakeDamageEvent,
>
    decreases rs.len(),
{
    if rs.len() == 0 {
        Seq::empty()
    } else {
        let prev = spec_player_hits(player, rs.drop_last());
        if rs.last().other_type == ColliderType::Enemy && rs.last().started {
            prev.push(
                crate::event::TakeDamageEvent {
                    entity: player,
                    entity_type: Some(ColliderType::Player),
                    damage: PLAYER_CONTACT_DAMAGE,
                },
            )
        } else {
            prev
        }
    }
}

/// How many graze-sensor overlaps begin in the records.
pub open spec fn spec_count_grazes(rs: Seq<CollisionData>) -> nat
    decreases rs.len(),
{
    if rs.len() == 0 {
        0
    } else {
        spec_count_grazes(rs.drop_last()) + if rs.last().other_type == ColliderType::Graze
            && rs.last().started {
            1nat
        } else {
            0nat
        }
    }
}

/// How much one graze raises the score multiplier: a hundredth.
pub const GRAZE_MULTIPLIER_STEP: i64 = 10;

/// Resolve the player's overlap records for this tick: each enemy contact
/// that begins deals the player ten points of damage, and each graze
/// sensor entered counts one graze and raises the score multiplier a
/// hundredth.
pub fn handle_player_col(
    player: u64,
    records: &Vec<CollisionData>,
    graze: &mut crate::player::Graze,
    score: &mut crate::player::Score,
) -> (hits: Vec<crate::event::TakeDamageEvent>)
    requires
        old(graze).0 + spec_count_grazes(records@) <= u32::MAX,
        0 <= old(score).spec_multiplier(),
        old(score).spec_multiplier() + GRAZE_MULTIPLIER_STEP * spec_count_grazes(records@)
            <= crate::player::MULTIPLIER_BOUND,
    ensures
        hits@ == spec_player_hits(player, records@),
        final(graze).0 == old(graze).0 + spec_count_grazes(records@),
        final(score).spec_multiplier() == old(score).spec_multiplier() + GRAZE_MULTIPLIER_STEP
            * spec_count_grazes(records@),
        final(score).spec_get() == old(score).spec_get(),
        final(score).spec_pre() == old(score).spec_pre(),
{
    let mut hits: Vec<crate::event::TakeDamageEvent> = Vec::new();
    let n = records.len();
    let mut idx: usize = 0;
    proof {
        lemma_count_grazes_monotone(records@, 0);
    }
    while idx < n
        invariant
            n == records@.len(),
            idx <= n,
            hits@ == spec_player_hits(player, records@.take(idx as int)),
            graze.0 == old(graze).0 + spec_count_grazes(records@.take(idx as int)),
            score.spec_multiplier() == old(score).spec_multiplier() + GRAZE_MULTIPLIER_STEP
                * spec_count_grazes(records@.take(idx as int)),
            score.spec_get() == old(score).spec_get(),
            score.spec_pre() == old(score).spec_pre(),
            old(graze).0 + spec_count_grazes(records@) <= u32::MAX,
            0 <= old(score).spec_multiplier(),
            old(score).spec_multiplier() + GRAZE_MULTIPLIER_STEP * spec_count_grazes(records@)
                <= crate::player::MULTIPLIER_BOUND,
        decreases n - idx,
    {
        let r = records[idx];
        proof {
            assert(records@.take(idx + 1 as int).drop_last() =~= records@.take(idx as int));
            assert(records@.take(idx + 1 as int).last() == r);
            lemma_count_grazes_monotone(records@, idx + 1);
        }
        if matches!(r.other_type, ColliderType::Enemy) && r.started {
            hits.push(
                crate::event::TakeDamageEvent::new(
                    player,
                    Some(ColliderType::Player),
                    PLAYER_CONTACT_DAMAGE,
                ),
            );
        }
        if matches!(r.other_type, ColliderType::Graze) && r.started {
            crate::shared::Counter::add(graze, 1);
            score.increase_multiplier_by(GRAZE_MULTIPLIER_STEP);
        }
        proof {
            assert(hits@ =~= spec_player_hits(player, records@.take(idx + 1 as int)));
        }
        idx += 1;
    }
    proof {
        assert(records@.take(n as int) =~= records@);
    }
    hits
}

/// A prefix of the records holds at most as many grazes as the whole.
proof fn lemma_count_grazes_monotone(rs: Seq<CollisionData>, k: int)
    requires
        0 <= k <= rs.len(),
    ensures
        spec_count_grazes(rs.take(k)) <= spec_count_grazes(rs),
    decreases rs.len() - k,
{
    if k < rs.len() {
        lemma_count_grazes_monotone(rs, k + 1);
        assert(rs.take(k + 1).drop_last() =~= rs.take(k));
    } else {
        assert(rs.take(k) =~= rs);
    }
}

/// Contact damage an enemy takes from touching the player.
pub const ENEMY_CONTACT_DAMAGE: i64 = 15_000;

/// The outcomes of an enemy's records: fifteen points of damage against
/// the enemy for each player contact that begins (with no category, so it
/// neither scores nor counts as a kill), and a despawn without cascade
/// when the enemy stops overlapping a wall's sensor region — it has
/// drifted off the accessible field.
pub open spec fn spec_enemy_outcomes(enemy: u64, rs: Seq<CollisionData>) -> (
    Seq<crate::event::TakeDamageEvent>,
    Seq<crate::event::DespawnEvent>,
)
    decreases rs.len(),
{
    if rs.len() == 0 {
        (Seq::empty(), Seq::empty())
    } else {
        let prev = spec_enemy_outcomes(enemy, rs.drop_last());
        let r = rs.last();
        let hits = if r.other_type == ColliderType::Player && r.started {
            prev.0.push(
                crate::event::TakeDamageEvent {
                    entity: enemy,
                    entity_type: None,
                    damage: ENEMY_CONTACT_DAMAGE,
                },
            )
        } else {
            prev.0
        };
        let gone = if r.flags & SENSOR_FLAG != 0 && r.other_type == ColliderType::Wall
            && !r.started {
            prev.1.push(
                crate::event::DespawnEvent {
                    entity: enemy,
                    recursive: false,
                    drop_score: 0u8,
                    drop_power: 0u8,
                },
            )
        } else {
            prev.1
        };
        (hits, gone)
    }
}

/// What an enemy's collision handler asks the world to do.
pub struct EnemyColOutcome {
    pub damage: Vec<crate::event::TakeDamageEvent>,
    pub despawn: Vec<crate::event::DespawnEvent>,
}

/// Resolve one enemy's overlap records for this tick (see
/// `spec_enemy_outcomes`).
pub fn handle_enemy_col(enemy: u64, records: &Vec<CollisionData>) -> (out: EnemyColOutcome)
    ensures
        (out.damage@, out.despawn@) == spec_enemy_outcomes(enemy, records@),
{
    let mut damage: Vec<crate::event::TakeDamageEvent> = Vec::new();
    let mut despawn: Vec<crate::event::DespawnEvent> = Vec::new();
    let n = records.len();
    let mut idx: usize = 0;
    while idx < n
        invariant
            n == records@.len(),
            idx <= n,
            (damage@, despawn@) == spec_enemy_outcomes(enemy, records@.take(idx as int)),
        decreases n - idx,
    {
        let r = records[idx];
        proof {
            assert(records@.take(idx + 1 as int).drop_last() =~= records@.take(idx as int));
            assert(records@.take(idx + 1 as int).last() == r);
        }
        if matches!(r.other_type, ColliderType::Player) && r.started {
            damage.push(crate::event::TakeDamageEvent::new(enemy, None, ENEMY_CONTACT_DAMAGE));
        }
        if r.flags & SENSOR_FLAG != 0 && matches!(r.other_type, ColliderType::Wall) && !r.started {
            despawn.push(crate::event::DespawnEvent::new(enemy, false));
        }
        proof {
            let stepped = spec_enemy_outcomes(enemy, records@.take(idx + 1 as int));
            assert(damage@ =~= stepped.0);
            assert(despawn@ =~= stepped.1);
        }
        idx += 1;
    }
    proof {
        assert(records@.take(n as int) =~= records@);
    }
    EnemyColOutcome { damage, despawn }
}


/// Half the random spread of a wall bounce, in fixed-point thousandths.
pub const BOUNCE_JITTER: i64 = 500;

/// Velocity bound under which the bounce arithmetic stays exact.
pub const BOUNCE_VELOCITY_BOUND: i64 = 500_000_000;

/// One inexact bounce of a pickup off a wall, with the randomness handed
/// in as `r` (drawn uniformly from half a unit either way). Off a side
/// wall the horizontal velocity flips and shrinks by a factor of two plus
/// `r`, while the vertical velocity is nudged by `r`; off the top or
/// bottom the same happens with the axes swapped and a factor of two and
/// a half plus `r`, as if off a rough surface.
pub fn bounce_off_wall(movement: &mut Movement, wall: crate::levels::Wall, r: i64)
    requires
        -BOUNCE_JITTER <= r <= BOUNCE_JITTER,
        -0x2000_0000_0000_0000 <= old(movement).velocity.x <= 0x2000_0000_0000_0000,
        -0x2000_0000_0000_0000 <= old(movement).velocity.y <= 0x2000_0000_0000_0000,
        -1_000_000_000_000 <= old(movement).velocity.x * 1000 <= 1_000_000_000_000,
        -1_000_000_000_000 <= old(movement).velocity.y * 1000 <= 1_000_000_000_000,
    ensures
        final(movement).acceleration == old(movement).acceleration,
        final(movement).local == old(movement).local,
        final(movement).v_local == old(movement).v_local,
        final(movement).a_local == old(movement).a_local,
        (wall == crate::levels::Wall::Left || wall == crate::levels::Wall::Right) ==> {
            &&& final(movement).velocity.x == -old(movement).velocity.x * 1000 / (2000 + r)
            &&& final(movement).velocity.y == old(movement).velocity.y + r
        },
        (wall == crate::levels::Wall::Top || wall == crate::levels::Wall::Bottom) ==> {
            &&& final(movement).velocity.y == -old(movement).velocity.y * 1000 / (2500 + r)
            &&& final(movement).velocity.x == old(movement).velocity.x + r
        },
        -667_000_000 <= (if wall == crate::levels::Wall::Left || wall
            == crate::levels::Wall::Right {
            final(movement).velocity.x
        } else {
            final(movement).velocity.y
        }) <= 667_000_000,
{
    match wall {
        crate::levels::Wall::Left | crate::levels::Wall::Right => {
            proof {
                crate::fixed::lemma_div_bounded(
                    -old(movement).velocity.x * 1000,
                    (2000 + r) as int,
                    667_000_000,
                );
            }
            movement.velocity = Vec2 {
                x: crate::fixed::div_floor(-movement.velocity.x * 1000, 2000 + r),
                y: movement.velocity.y + r,
            };
        },
        crate::levels::Wall::Top | crate::levels::Wall::Bottom => {
            proof {
                crate::fixed::lemma_div_bounded(
                    -old(movement).velocity.y * 1000,
                    (2500 + r) as int,
                    667_000_000,
                );
            }
            movement.velocity = Vec2 {
                x: movement.velocity.x + r,
                y: crate::fixed::div_floor(-movement.velocity.y * 1000, 2500 + r),
            };
        },
    }
}

/// How many overlaps with the player begin in the records: the pickups.
pub open spec fn spec_count_pickups(rs: Seq<CollisionData>) -> nat
    decreases rs.len(),
{
    if rs.len() == 0 {
        0
    } else {
        spec_count_pickups(rs.drop_last()) + if rs.last().other_type == ColliderType::Player
            && rs.last().started {
            1nat
        } else {
            0nat
        }
    }
}

/// How many overlaps with a wall begin in the records: the bounces.
pub open spec fn spec_count_bounces(rs: Seq<CollisionData>) -> nat
    decreases rs.len(),
{
    if rs.len() == 0 {
        0
    } else {
        spec_count_bounces(rs.drop_last()) + if rs.last().other_type == ColliderType::Wall
            && rs.last().started {
            1nat
        } else {
            0nat
        }
    }
}

/// Score a picked-up score pickup grants.
pub const PICKUP_SCORE: u64 = 50;

/// Resolve one pickup's overlap records for this tick. Each overlap with
/// the player that begins grants the pickup's boon — fifty points of
/// score through the multiplier, or one point of power up to the cap —
/// and asks for a despawn without cascade or loot. Each overlap with a
/// wall that begins bounces the pickup (see `bounce_off_wall`, with fresh
/// randomness per bounce); a wall absent from the wall registry would be
/// a construction bug, ruled out by precondition. Overlap ends are
/// ignored.
pub fn handle_collectable_col(
    entity: u64,
    kind: crate::collectables::CollectableType,
    movement: &mut Movement,
    records: &Vec<CollisionData>,
    walls: &HashMap<u64, crate::levels::Wall>,
    score: &mut crate::player::Score,
    power: &mut crate::player::Power,
) -> (despawns: Vec<crate::event::DespawnEvent>)
    requires
        forall|k: int|
            0 <= k < records@.len() ==> ((#[trigger] records@[k]).other_type == ColliderType::Wall
                && records@[k].started ==> walls@.contains_key(records@[k].other_entity)),
        old(score).wf(),
        old(score).spec_pre() + PICKUP_SCORE * spec_count_pickups(records@) <= u64::MAX,
        (old(score).spec_pre() + PICKUP_SCORE * spec_count_pickups(records@)) * old(
            score,
        ).spec_multiplier() / 1000 <= u64::MAX,
        old(power).wf(),
        old(power).spec_max() < u16::MAX,
        records@.len() <= 100_000,
        -BOUNCE_VELOCITY_BOUND <= old(movement).velocity.x <= BOUNCE_VELOCITY_BOUND,
        -BOUNCE_VELOCITY_BOUND <= old(movement).velocity.y <= BOUNCE_VELOCITY_BOUND,
    ensures
        kind == crate::collectables::CollectableType::Score ==> {
            &&& *final(score) == old(score).spec_add_times(spec_count_pickups(records@), PICKUP_SCORE)
            &&& *final(power) == *old(power)
        },
        kind == crate::collectables::CollectableType::Power ==> {
            &&& *final(power) == old(power).spec_add_ones(spec_count_pickups(records@))
            &&& *final(score) == *old(score)
        },
        despawns@.len() == spec_count_pickups(records@),
        forall|k: int|
            0 <= k < despawns@.len() ==> #[trigger] despawns@[k] == (crate::event::DespawnEvent {
                entity,
                recursive: false,
                drop_score: 0u8,
                drop_power: 0u8,
            }),
        final(movement).acceleration == old(movement).acceleration,
        final(movement).local == old(movement).local,
        final(movement).v_local == old(movement).v_local,
        final(movement).a_local == old(movement).a_local,
        spec_count_bounces(records@) == 0 ==> final(movement).velocity == old(movement).velocity,
        -2_000_000_000 <= final(movement).velocity.x <= 2_000_000_000,
        -2_000_000_000 <= final(movement).velocity.y <= 2_000_000_000,
{
    let mut despawns: Vec<crate::event::DespawnEvent> = Vec::new();
    let n = records.len();
    let mut idx: usize = 0;
    proof {
        lemma_count_pickups_monotone(records@, 0);
    }
    while idx < n
        invariant
            n == records@.len() <= 100_000,
            idx <= n,
            forall|k: int|
                0 <= k < records@.len() ==> ((#[trigger] records@[k]).other_type
                    == ColliderType::Wall && records@[k].started ==> walls@.contains_key(
                    records@[k].other_entity,
                )),
            old(score).wf(),
            old(score).spec_pre() + PICKUP_SCORE * spec_count_pickups(records@) <= u64::MAX,
            (old(score).spec_pre() + PICKUP_SCORE * spec_count_pickups(records@)) * old(
                score,
            ).spec_multiplier() / 1000 <= u64::MAX,
            old(power).wf(),
            old(power).spec_max() < u16::MAX,
            kind == crate::collectables::CollectableType::Score ==> (*score == old(
                score,
            ).spec_add_times(spec_count_pickups(records@.take(idx as int)), PICKUP_SCORE) && *power
                == *old(power)),
            kind == crate::collectables::CollectableType::Power ==> (*power == old(
                power,
            ).spec_add_ones(spec_count_pickups(records@.take(idx as int))) && *score == *old(
                score,
            )),
            despawns@.len() == spec_count_pickups(records@.take(idx as int)),
            forall|k: int|
                0 <= k < despawns@.len() ==> #[trigger] despawns@[k] == (
                crate::event::DespawnEvent {
                    entity,
                    recursive: false,
                    drop_score: 0u8,
                    drop_power: 0u8,
                }),
            movement.acceleration == old(movement).acceleration,
            movement.local == old(movement).local,
            movement.v_local == old(movement).v_local,
            movement.a_local == old(movement).a_local,
            spec_count_bounces(records@.take(idx as int)) == 0 ==> movement.velocity == old(
                movement,
            ).velocity,
            -(700_000_000 + BOUNCE_JITTER * idx) <= movement.velocity.x <= 700_000_000
                + BOUNCE_JITTER * idx,
            -(700_000_000 + BOUNCE_JITTER * idx) <= movement.velocity.y <= 700_000_000
                + BOUNCE_JITTER * idx,
        decreases n - idx,
    {
        let r = records[idx];
        proof {
            assert(records@.take(idx + 1 as int).drop_last() =~= records@.take(idx as int));
            assert(records@.take(idx + 1 as int).last() == r);
            lemma_count_pickups_monotone(records@, idx + 1);
        }
        if r.started {
            if matches!(r.other_type, ColliderType::Player) {
                match kind {
                    crate::collectables::CollectableType::Score => {
                        proof {
                            let done = spec_count_pickups(records@.take(idx as int));
                            let all = spec_count_pickups(records@);
                            old(score).lemma_add_times_parts(done, PICKUP_SCORE);
                            crate::fixed::lemma_mul_le(
                                done as int,
                                all as int,
                                PICKUP_SCORE as int,
                            );
                            crate::fixed::lemma_mul_le(
                                old(score).spec_pre() + PICKUP_SCORE * done + PICKUP_SCORE,
                                old(score).spec_pre() + PICKUP_SCORE * all,
                                old(score).spec_multiplier() as int,
                            );
                            vstd::arithmetic::div_mod::lemma_div_is_ordered(
                                (old(score).spec_pre() + PICKUP_SCORE * done + PICKUP_SCORE) * old(
                                    score,
                                ).spec_multiplier(),
                                (old(score).spec_pre() + PICKUP_SCORE * all) * old(
                                    score,
                                ).spec_multiplier(),
                                1000,
                            );
                            assert(done * PICKUP_SCORE == PICKUP_SCORE * done) by (nonlinear_arith);
                            assert(all * PICKUP_SCORE == PICKUP_SCORE * all) by (nonlinear_arith);
                            vstd::arithmetic::div_mod::lemma_div_pos_is_pos(
                                (old(score).spec_pre() + PICKUP_SCORE * done + PICKUP_SCORE) * old(
                                    score,
                                ).spec_multiplier(),
                                1000,
                            );
                            crate::geometry::lemma_mul_bound(
                                old(score).spec_pre() + PICKUP_SCORE * done + PICKUP_SCORE,
                                old(score).spec_multiplier() as int,
                                u64::MAX as int,
                                crate::player::MULTIPLIER_BOUND as int,
                            );
                        }
                        crate::shared::Counter::add(score, PICKUP_SCORE);
                    },
                    crate::collectables::CollectableType::Power => {
                        proof {
                            old(power).lemma_add_ones_parts(
                                spec_count_pickups(records@.take(idx as int)),
                            );
                        }
                        crate::shared::Counter::add(power, 1);
                        proof {
                            old(power).lemma_add_ones_parts(
                                spec_count_pickups(records@.take(idx + 1 as int)),
                            );
                            crate::player::Power::lemma_power_eq(
                                *power,
                                old(power).spec_add_ones(
                                    spec_count_pickups(records@.take(idx + 1 as int)),
                                ),
                            );
                        }
                    },
                }
                despawns.push(crate::event::DespawnEvent::new(entity, false));
            } else if matches!(r.other_type, ColliderType::Wall) {
                let wall = match walls.get(&r.other_entity) {
                    Some(w) => *w,
                    None => vstd::pervasive::unreached(),
                };
                let jitter = crate::rng::rand_range_i64(-BOUNCE_JITTER, BOUNCE_JITTER);
                proof {
                    crate::geometry::lemma_mul_bound(
                        movement.velocity.x as int,
                        1000,
                        1_000_000_000,
                        1000,
                    );
                    crate::geometry::lemma_mul_bound(
                        movement.velocity.y as int,
                        1000,
                        1_000_000_000,
                        1000,
                    );
                }
                bounce_off_wall(movement, wall, jitter);
            }
        }
        proof {
            if kind == crate::collectables::CollectableType::Score {
                assert(*score == old(score).spec_add_times(
                    spec_count_pickups(records@.take(idx + 1 as int)),
                    PICKUP_SCORE,
                ));
            }
        }
        idx += 1;
    }
    proof {
        assert(records@.take(n as int) =~= records@);
    }
    despawns
}

/// A prefix of the records holds at most as many pickups as the whole.
proof fn lemma_count_pickups_monotone(rs: Seq<CollisionData>, k: int)
    requires
        0 <= k <= rs.len(),
    ensures
        spec_count_pickups(rs.take(k)) <= spec_count_pickups(rs),
    decreases rs.len() - k,
{
    if k < rs.len() {
        lemma_count_pickups_monotone(rs, k + 1);
        assert(rs.take(k + 1).drop_last() =~= rs.take(k));
    } else {
        assert(rs.take(k) =~= rs);
    }
}

} // verus!
