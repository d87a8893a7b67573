use crate::component::{EntityRecord, PositionComponent, TextComponent, VelocityComponent};
use crate::world::{
    empty_record, entities_of, grown_by, new_world, reserved_of, spawn_labelled, spawn_moving, spawned,
};
use vstd::prelude::*;

verus! {

/// Micro-pixels in one pixel.
pub const MICROS_PER_PIXEL: i64 = 1_000_000;

/// Milli-pixels per second in one pixel per second.
pub const MILLIS_PER_PIXEL: i64 = 1_000;

/// A moving entity: a position and a velocity.
pub struct Player;

/// Where a player starts, in micro-pixels, and how fast it moves, in
/// milli-pixels per second.
#[derive(Clone, Copy, Debug, PartialEq, Eq, Structural)]
pub struct PlayerSpawnParams {
    pub x: i64,
    pub y: i64,
    pub vx: i64,
    pub vy: i64,
}

/// A still entity that shows a line of text: a position and a text marker.
pub struct Text;

/// Where a text entity stands, in micro-pixels.
#[derive(Clone, Copy, Debug, PartialEq, Eq, Structural)]
pub struct TextSpawnParams {
    pub x: i64,
    pub y: i64,
}

pub open spec fn player_record(params: PlayerSpawnParams) -> EntityRecord {
    EntityRecord {
        position: Some(PositionComponent { x: params.x, y: params.y }),
        velocity: Some(VelocityComponent { x: params.vx, y: params.vy }),
        text: None,
    }
}

pub open spec fn text_record(params: TextSpawnParams) -> EntityRecord {
    EntityRecord {
        position: Some(PositionComponent { x: params.x, y: params.y }),
        velocity: None,
        text: Some(TextComponent {}),
    }
}

impl Player {
    /// Spawns a player. The entities stored before are untouched; entities
    /// that were only reserved are stored too, with no component.
    pub fn new(world: &mut hecs::World, params: PlayerSpawnParams) -> (r: hecs::Entity)
        ensures
            spawned(entities_of(*old(world)), entities_of(*final(world)), r, player_record(params)),
            entities_of(*final(world)).dom() == entities_of(*old(world)).dom().union(reserved_of(*old(world))).insert(r),
            reserved_of(*final(world)).is_empty(),
    {
        spawn_moving(
            world,
            PositionComponent { x: params.x, y: params.y },
            VelocityComponent { x: params.vx, y: params.vy },
        )
    }
}

impl Text {
    /// Spawns a text entity. The entities stored before are untouched;
    /// entities that were only reserved are stored too, with no component.
    pub fn new(world: &mut hecs::World, params: TextSpawnParams) -> (r: hecs::Entity)
        ensures
            spawned(entities_of(*old(world)), entities_of(*final(world)), r, text_record(params)),
            entities_of(*final(world)).dom() == entities_of(*old(world)).dom().union(reserved_of(*old(world))).insert(r),
            reserved_of(*final(world)).is_empty(),
    {
        spawn_labelled(world, PositionComponent { x: params.x, y: params.y }, TextComponent {})
    }
}

/// The player of the demo: at (100, 100) pixels, moving at (10, 10) pixels
/// per second.
pub open spec fn demo_player() -> PlayerSpawnParams {
    PlayerSpawnParams { x: 100_000_000, y: 100_000_000, vx: 10_000, vy: 10_000 }
}

/// The text of the demo: at (20, 100) pixels.
pub open spec fn demo_text() -> TextSpawnParams {
    TextSpawnParams { x: 20_000_000, y: 100_000_000 }
}

/// Spawns the demo's player and text entity, and returns them in that order.
/// The entities stored before are untouched; entities that were only reserved
/// are stored too, with no component.
pub fn initialize_world(world: &mut hecs::World) -> (r: (hecs::Entity, hecs::Entity))
    ensures
        r.0 != r.1,
        !entities_of(*old(world)).contains_key(r.0),
        !entities_of(*old(world)).contains_key(r.1),
        entities_of(*final(world)).contains_key(r.0),
        entities_of(*final(world)).contains_key(r.1),
        entities_of(*final(world))[r.0] == player_record(demo_player()),
        entities_of(*final(world))[r.1] == text_record(demo_text()),
        grown_by(entities_of(*old(world)), entities_of(*final(world)), set![r.0, r.1]),
        entities_of(*final(world)).dom() == entities_of(*old(world)).dom().union(reserved_of(*old(world))).insert(r.0).insert(r.1),
        reserved_of(*final(world)).is_empty(),
        reserved_of(*old(world)).is_empty() ==> entities_of(*final(world)).dom() == entities_of(*old(world)).dom().insert(r.0).insert(r.1),
{
    let ghost m0 = entities_of(*world);
    let player = Player::new(
        world,
        PlayerSpawnParams {
            x: 100 * MICROS_PER_PIXEL,
            y: 100 * MICROS_PER_PIXEL,
            vx: 10 * MILLIS_PER_PIXEL,
            vy: 10 * MILLIS_PER_PIXEL,
        },
    );
    let ghost m1 = entities_of(*world);
    let text = Text::new(world, TextSpawnParams { x: 20 * MICROS_PER_PIXEL, y: 100 * MICROS_PER_PIXEL });
    let ghost m2 = entities_of(*world);
    proof {
        assert(m1.contains_key(player));
        assert(set![player].contains(player));
        assert forall|e: hecs::Entity| #[trigger] m0.contains_key(e) implies m2.contains_key(e) && m2[e] == m0[e] by {
            assert(m1.contains_key(e));
        }
        assert forall|e: hecs::Entity|
            #[trigger] m2.contains_key(e) && !m0.contains_key(e) && !set![player, text].contains(e) implies m2[e] == empty_record() by {
            assert(!set![text].contains(e));
            if m1.contains_key(e) {
                assert(!set![player].contains(e));
            }
        }
        assert(m2.dom() =~= m0.dom().union(reserved_of(*old(world))).insert(player).insert(text));
        if reserved_of(*old(world)).is_empty() {
            assert(m0.dom().union(reserved_of(*old(world))) =~= m0.dom());
        }
    }
    (player, text)
}

/// A new world holding exactly the demo's player and text entity, returned
/// with it in that order.
pub fn new_demo_world() -> (r: (hecs::World, hecs::Entity, hecs::Entity))
    ensures
        r.1 != r.2,
        entities_of(r.0).dom() == set![r.1, r.2],
        reserved_of(r.0).is_empty(),
        entities_of(r.0).contains_key(r.1),
        entities_of(r.0).contains_key(r.2),
        entities_of(r.0)[r.1] == player_record(demo_player()),
        entities_of(r.0)[r.2] == text_record(demo_text()),
{
    let mut world = new_world();
    let (player, text) = initialize_world(&mut world);
    assert(entities_of(world).dom() =~= set![player, text]);
    (world, player, text)
}

} // verus!
