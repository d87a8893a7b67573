use crate::component::{EntityRecord, PositionComponent, TextComponent, VelocityComponent};
use vstd::prelude::*;

verus! {

#[verifier::external_type_specification]
#[verifier::external_body]
pub struct ExWorld(hecs::World);

#[verifier::external_type_specification]
#[verifier::external_body]
pub struct ExEntity(hecs::Entity);

/// The entities stored in a world, as its queries see them, and the
/// components each one carries. Entities that were only reserved are not
/// among them until the world is flushed.
pub uninterp spec fn entities_of(w: hecs::World) -> Map<hecs::Entity, EntityRecord>;

/// The entities of a world that were reserved and are not stored yet; a
/// flush stores them with no component.
pub uninterp spec fn reserved_of(w: hecs::World) -> Set<hecs::Entity>;

/// A record with no component, as a reserved entity has once it is flushed.
pub open spec fn empty_record() -> EntityRecord {
    EntityRecord { position: None, velocity: None, text: None }
}

/// `m1` is `m0` with entities added only: every entity of `m0` keeps its
/// components, and every added entity outside `fresh` has no component.
pub open spec fn grown_by(m0: Map<hecs::Entity, EntityRecord>, m1: Map<hecs::Entity, EntityRecord>, fresh: Set<hecs::Entity>) -> bool {
    &&& forall|e: hecs::Entity| #[trigger] m0.contains_key(e) ==> m1.contains_key(e) && m1[e] == m0[e]
    &&& forall|e: hecs::Entity|
        #[trigger] m1.contains_key(e) && !m0.contains_key(e) && !fresh.contains(e) ==> m1[e] == empty_record()
}

/// `m1` is `m0` after spawning `r` with the components of `rec`.
pub open spec fn spawned(m0: Map<hecs::Entity, EntityRecord>, m1: Map<hecs::Entity, EntityRecord>, r: hecs::Entity, rec: EntityRecord) -> bool {
    &&& !m0.contains_key(r)
    &&& m1.contains_key(r)
    &&& m1[r] == rec
    &&& grown_by(m0, m1, set![r])
}

/// Relies on hecs::World::new: a new world stores no entity and has none
/// reserved.
#[verifier::external_body]
pub(crate) fn new_world() -> (r: hecs::World)
    ensures
        entities_of(r).is_empty(),
        reserved_of(r).is_empty(),
{
    hecs::World::new()
}

/// `s` lists every entity of `m` exactly once, each with its components.
pub open spec fn lists_exactly(s: Seq<(hecs::Entity, EntityRecord)>, m: Map<hecs::Entity, EntityRecord>) -> bool {
    &&& forall|i: int, j: int| 0 <= i < j < s.len() ==> s[i].0 != s[j].0
    &&& forall|i: int| 0 <= i < s.len() ==> #[trigger] m.contains_key(s[i].0) && m[s[i].0] == s[i].1
    &&& forall|e: hecs::Entity| #[trigger] m.contains_key(e) ==> exists|i: int| 0 <= i < s.len() && s[i].0 == e
}

/// Relies on hecs::World::query_mut: a query made of optional parts matches
/// every archetype, so it yields each stored entity once, with the components
/// it has. It neither flushes nor changes the world, and on a uniquely
/// borrowed world it makes no borrow check that could fail.
#[verifier::external_body]
pub(crate) fn snapshot(world: &mut hecs::World) -> (r: Vec<(hecs::Entity, EntityRecord)>)
    ensures
        entities_of(*final(world)) == entities_of(*old(world)),
        reserved_of(*final(world)) == reserved_of(*old(world)),
        lists_exactly(r@, entities_of(*old(world))),
{
    world
        .query_mut::<(Option<&PositionComponent>, Option<&VelocityComponent>, Option<&TextComponent>)>()
        .into_iter()
        .map(|(e, (p, v, t))| (e, EntityRecord { position: p.copied(), velocity: v.copied(), text: t.copied() }))
        .collect()
}

/// Relies on hecs::World::spawn: it first flushes, which stores every reserved
/// entity with no component and leaves none reserved, then stores a new entity
/// with exactly the bundle given; the entities stored before keep their
/// components.
#[verifier::external_body]
pub(crate) fn spawn_moving(world: &mut hecs::World, p: PositionComponent, v: VelocityComponent) -> (r: hecs::Entity)
    ensures
        spawned(
            entities_of(*old(world)),
            entities_of(*final(world)),
            r,
            EntityRecord { position: Some(p), velocity: Some(v), text: None },
        ),
        entities_of(*final(world)).dom() == entities_of(*old(world)).dom().union(reserved_of(*old(world))).insert(r),
        reserved_of(*final(world)).is_empty(),
{
    world.spawn((p, v))
}

/// Relies on hecs::World::spawn: it first flushes, which stores every reserved
/// entity with no component and leaves none reserved, then stores a new entity
/// with exactly the bundle given; the entities stored before keep their
/// components.
#[verifier::external_body]
pub(crate) fn spawn_labelled(world: &mut hecs::World, p: PositionComponent, t: TextComponent) -> (r: hecs::Entity)
    ensures
        spawned(
            entities_of(*old(world)),
            entities_of(*final(world)),
            r,
            EntityRecord { position: Some(p), velocity: None, text: Some(t) },
        ),
        entities_of(*final(world)).dom() == entities_of(*old(world)).dom().union(reserved_of(*old(world))).insert(r),
        reserved_of(*final(world)).is_empty(),
{
    world.spawn((p, t))
}

/// The record with its position replaced.
pub open spec fn with_position(rec: EntityRecord, p: PositionComponent) -> EntityRecord {
    EntityRecord { position: Some(p), ..rec }
}

/// The record with its velocity replaced.
pub open spec fn with_velocity(rec: EntityRecord, v: VelocityComponent) -> EntityRecord {
    EntityRecord { velocity: Some(v), ..rec }
}

/// Relies on hecs::World::query_one_mut: it hands out the entity's position
/// when the entity is stored and has one, and fails otherwise; it does not
/// flush.
#[verifier::external_body]
pub(crate) fn write_position(world: &mut hecs::World, e: hecs::Entity, p: PositionComponent) -> (r: bool)
    ensures
        r == (entities_of(*old(world)).contains_key(e) && entities_of(*old(world))[e].position is Some),
        entities_of(*final(world)) == if r {
            entities_of(*old(world)).insert(e, with_position(entities_of(*old(world))[e], p))
        } else {
            entities_of(*old(world))
        },
        reserved_of(*final(world)) == reserved_of(*old(world)),
{
    match world.query_one_mut::<&mut PositionComponent>(e) {
        Ok(slot) => {
            *slot = p;
            true
        },
        Err(_) => false,
    }
}

/// Relies on hecs::World::query_one_mut: it hands out the entity's velocity
/// when the entity is stored and has one, and fails otherwise; it does not
/// flush.
#[verifier::external_body]
pub(crate) fn write_velocity(world: &mut hecs::World, e: hecs::Entity, v: VelocityComponent) -> (r: bool)
    ensures
        r == (entities_of(*old(world)).contains_key(e) && entities_of(*old(world))[e].velocity is Some),
        entities_of(*final(world)) == if r {
            entities_of(*old(world)).insert(e, with_velocity(entities_of(*old(world))[e], v))
        } else {
            entities_of(*old(world))
        },
        reserved_of(*final(world)) == reserved_of(*old(world)),
{
    match world.query_one_mut::<&mut VelocityComponent>(e) {
        Ok(slot) => {
            *slot = v;
            true
        },
        Err(_) => false,
    }
}

} // verus!
