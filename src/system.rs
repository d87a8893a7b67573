use crate::component::{EntityRecord, PositionComponent, VelocityComponent};
use crate::resource::{play_request, PlayRequest, SoundManager, SpriteManager, FULL_VOLUME};
use crate::world::{
    entities_of, reserved_of, lists_exactly, snapshot, with_position, with_velocity, write_position,
    write_velocity,
};
use vstd::prelude::*;

verus! {

/// Why a system left the world as it was.
#[derive(Clone, Copy, Debug, PartialEq, Eq, Structural)]
pub enum StepError {
    /// A new position would not fit the coordinate range.
    PositionOutOfRange,
    /// A new velocity would not fit the coordinate range.
    VelocityOutOfRange,
}

pub open spec fn fits_i64(v: int) -> bool {
    i64::MIN <= v <= i64::MAX
}

/// Whether the tick system moves an entity: it needs a position and a velocity.
pub open spec fn moves(rec: EntityRecord) -> bool {
    rec.position is Some && rec.velocity is Some
}

/// One coordinate after `dt` milliseconds.
pub open spec fn advanced(p: i64, v: i64, dt: u32) -> int {
    p + v * dt
}

pub open spec fn advance_fits(rec: EntityRecord, dt: u32) -> bool {
    moves(rec) ==> {
        let p = rec.position->Some_0;
        let v = rec.velocity->Some_0;
        fits_i64(advanced(p.x, v.x, dt)) && fits_i64(advanced(p.y, v.y, dt))
    }
}

/// The record after one tick of `dt` milliseconds.
pub open spec fn tick_record(rec: EntityRecord, dt: u32) -> EntityRecord {
    if moves(rec) {
        let p = rec.position->Some_0;
        let v = rec.velocity->Some_0;
        with_position(
            rec,
            PositionComponent { x: advanced(p.x, v.x, dt) as i64, y: advanced(p.y, v.y, dt) as i64 },
        )
    } else {
        rec
    }
}

/// Whether every moving entity of `m` stays in range for one tick.
pub open spec fn tick_fits(m: Map<hecs::Entity, EntityRecord>, dt: u32) -> bool {
    forall|e: hecs::Entity| #[trigger] m.contains_key(e) ==> advance_fits(m[e], dt)
}

/// The entities of `m` after one tick: each moving entity advances by its
/// velocity times `dt`, independently of every other entity.
pub open spec fn ticked(m: Map<hecs::Entity, EntityRecord>, dt: u32) -> Map<hecs::Entity, EntityRecord> {
    m.map_values(|rec: EntityRecord| tick_record(rec, dt))
}

proof fn lemma_scaled_bounds(v: i64, dt: u32)
    ensures
        -0x8000_0000_0000_0000_0000_0000 <= v * dt <= 0x8000_0000_0000_0000_0000_0000,
{
    assert(v * dt <= 0x8000_0000_0000_0000 * 0x1_0000_0000) by (nonlinear_arith)
        requires
            v <= 0x8000_0000_0000_0000,
            0 <= dt <= 0x1_0000_0000,
    ;
    assert(v * dt >= -0x8000_0000_0000_0000 * 0x1_0000_0000) by (nonlinear_arith)
        requires
            v >= -0x8000_0000_0000_0000,
            0 <= dt <= 0x1_0000_0000,
    ;
}

/// The entities of `m` after `n` ticks of `dt` milliseconds each.
pub open spec fn ticked_n(m: Map<hecs::Entity, EntityRecord>, dt: u32, n: nat) -> Map<hecs::Entity, EntityRecord>
    decreases n,
{
    if n == 0 {
        m
    } else {
        ticked(ticked_n(m, dt, (n - 1) as nat), dt)
    }
}

proof fn lemma_between(c: int, k: int, n: int)
    requires
        0 <= k <= n,
    ensures
        c >= 0 ==> 0 <= c * k <= c * n,
        c < 0 ==> c * n <= c * k <= 0,
{
    assert(c >= 0 ==> 0 <= c * k <= c * n) by (nonlinear_arith)
        requires
            0 <= k <= n,
    ;
    assert(c < 0 ==> c * n <= c * k <= 0) by (nonlinear_arith)
        requires
            0 <= k <= n,
    ;
}

/// Ticking is linear: after `n` ticks of `dt` milliseconds, an entity with a
/// position `p` and a velocity `v` stands at `p + v * dt * n` and keeps its
/// velocity, whatever the other entities do, as long as that end point is in
/// the coordinate range. Every tick moves each entity on its own, so the order
/// in which entities are visited plays no part.
pub proof fn lemma_ticks_integrate_linearly(m: Map<hecs::Entity, EntityRecord>, dt: u32, n: nat, e: hecs::Entity)
    requires
        m.contains_key(e),
        moves(m[e]),
        fits_i64(m[e].position->Some_0.x + m[e].velocity->Some_0.x * dt * n),
        fits_i64(m[e].position->Some_0.y + m[e].velocity->Some_0.y * dt * n),
    ensures
        ticked_n(m, dt, n).contains_key(e),
        ticked_n(m, dt, n)[e].velocity == m[e].velocity,
        ticked_n(m, dt, n)[e].text == m[e].text,
        ticked_n(m, dt, n)[e].position == Some(PositionComponent {
            x: (m[e].position->Some_0.x + m[e].velocity->Some_0.x * dt * n) as i64,
            y: (m[e].position->Some_0.y + m[e].velocity->Some_0.y * dt * n) as i64,
        }),
    decreases n,
{
    let p = m[e].position->Some_0;
    let v = m[e].velocity->Some_0;
    if n == 0 {
        assert(v.x * dt * n == 0 && v.y * dt * n == 0) by (nonlinear_arith)
            requires
                n == 0,
        ;
    } else {
        let k = (n - 1) as nat;
        lemma_between(v.x * dt, k as int, n as int);
        lemma_between(v.y * dt, k as int, n as int);
        assert(v.x * dt * k + v.x * dt == v.x * dt * n) by (nonlinear_arith)
            requires
                k + 1 == n,
        ;
        assert(v.y * dt * k + v.y * dt == v.y * dt * n) by (nonlinear_arith)
            requires
                k + 1 == n,
        ;
        lemma_ticks_integrate_linearly(m, dt, k, e);
        let before = ticked_n(m, dt, k);
        assert(ticked_n(m, dt, n) == ticked(before, dt));
        assert(before[e].position->Some_0.x == p.x + v.x * dt * k);
        assert(before[e].position->Some_0.y == p.y + v.y * dt * k);
        assert(ticked_n(m, dt, n)[e] == tick_record(before[e], dt));
    }
}

fn advance(p: PositionComponent, v: VelocityComponent, dt: u32) -> (r: Option<PositionComponent>)
    ensures
        r is Some == (fits_i64(advanced(p.x, v.x, dt)) && fits_i64(advanced(p.y, v.y, dt))),
        r is Some ==> r->Some_0 == (PositionComponent {
            x: advanced(p.x, v.x, dt) as i64,
            y: advanced(p.y, v.y, dt) as i64,
        }),
{
    proof {
        lemma_scaled_bounds(v.x, dt);
        lemma_scaled_bounds(v.y, dt);
    }
    let x: i128 = p.x as i128 + v.x as i128 * dt as i128;
    let y: i128 = p.y as i128 + v.y as i128 * dt as i128;
    if x < i64::MIN as i128 || x > i64::MAX as i128 || y < i64::MIN as i128 || y > i64::MAX as i128 {
        None
    } else {
        Some(PositionComponent { x: x as i64, y: y as i64 })
    }
}

/// Moves every entity that has a position and a velocity by its velocity
/// times `delta_ms` milliseconds. When some entity would leave the coordinate
/// range, no entity moves.
pub fn logic_tick_system(world: &mut hecs::World, delta_ms: u32) -> (r: Result<(), StepError>)
    ensures
        reserved_of(*final(world)) == reserved_of(*old(world)),
        r is Ok == tick_fits(entities_of(*old(world)), delta_ms),
        r is Err ==> r->Err_0 == StepError::PositionOutOfRange,
        entities_of(*final(world)) == if r is Ok {
            ticked(entities_of(*old(world)), delta_ms)
        } else {
            entities_of(*old(world))
        },
{
    let ghost m0 = entities_of(*world);
    let items = snapshot(world);
    let mut i: usize = 0;
    while i < items.len()
        invariant
            0 <= i <= items.len(),
            lists_exactly(items@, m0),
            m0 == entities_of(*old(world)),
            reserved_of(*world) == reserved_of(*old(world)),
            m0 == entities_of(*world),
            forall|j: int| 0 <= j < i ==> advance_fits(#[trigger] items@[j].1, delta_ms),
        decreases items.len() - i,
    {
        let (_, rec) = items[i];
        if let (Some(p), Some(v)) = (rec.position, rec.velocity) {
            if advance(p, v, delta_ms).is_none() {
                proof {
                    assert(m0.contains_key(items@[i as int].0));
                }
                return Err(StepError::PositionOutOfRange);
            }
        }
        i = i + 1;
    }
    assert(tick_fits(m0, delta_ms)) by {
        assert forall|e: hecs::Entity| #[trigger] m0.contains_key(e) implies advance_fits(m0[e], delta_ms) by {
            let j = choose|j: int| 0 <= j < items@.len() && items@[j].0 == e;
            assert(advance_fits(items@[j].1, delta_ms));
        }
    }
    let mut i: usize = 0;
    while i < items.len()
        invariant
            0 <= i <= items.len(),
            lists_exactly(items@, m0),
            m0 == entities_of(*old(world)),
            reserved_of(*world) == reserved_of(*old(world)),
            tick_fits(m0, delta_ms),
            entities_of(*world).dom() == m0.dom(),
            forall|j: int| 0 <= j < i ==> entities_of(*world)[#[trigger] items@[j].0] == tick_record(m0[items@[j].0], delta_ms),
            forall|j: int| i <= j < items@.len() ==> entities_of(*world)[#[trigger] items@[j].0] == m0[items@[j].0],
        decreases items.len() - i,
    {
        let (e, rec) = items[i];
        proof {
            assert(m0.contains_key(items@[i as int].0));
        }
        if let (Some(p), Some(v)) = (rec.position, rec.velocity) {
            let moved = advance(p, v, delta_ms).unwrap();
            let _ = write_position(world, e, moved);
        }
        proof {
            assert forall|j: int| 0 <= j < items@.len() && j != i implies items@[j].0 != items@[i as int].0 by {
                if j < i {
                    assert(items@[j].0 != items@[i as int].0);
                } else {
                    assert(items@[i as int].0 != items@[j].0);
                }
            }
        }
        i = i + 1;
    }
    proof {
        assert(entities_of(*world) =~= ticked(m0, delta_ms)) by {
            assert forall|e: hecs::Entity| #[trigger] m0.contains_key(e) implies entities_of(*world)[e] == tick_record(m0[e], delta_ms) by {
                let j = choose|j: int| 0 <= j < items@.len() && items@[j].0 == e;
                assert(entities_of(*world)[items@[j].0] == tick_record(m0[items@[j].0], delta_ms));
            }
        }
    }
    Ok(())
}

/// The record after a boost: a velocity, where there is one, doubles.
pub open spec fn boost_record(rec: EntityRecord) -> EntityRecord {
    if rec.velocity is Some {
        let v = rec.velocity->Some_0;
        with_velocity(rec, VelocityComponent { x: (2 * v.x) as i64, y: (2 * v.y) as i64 })
    } else {
        rec
    }
}

pub open spec fn boost_record_fits(rec: EntityRecord) -> bool {
    rec.velocity is Some ==> fits_i64(2 * rec.velocity->Some_0.x) && fits_i64(2 * rec.velocity->Some_0.y)
}

/// Whether every velocity of `m` can be doubled in range.
pub open spec fn boost_fits(m: Map<hecs::Entity, EntityRecord>) -> bool {
    forall|e: hecs::Entity| #[trigger] m.contains_key(e) ==> boost_record_fits(m[e])
}

/// The entities of `m` with every velocity doubled.
pub open spec fn boosted(m: Map<hecs::Entity, EntityRecord>) -> Map<hecs::Entity, EntityRecord> {
    m.map_values(|rec: EntityRecord| boost_record(rec))
}

fn doubled(v: VelocityComponent) -> (r: Option<VelocityComponent>)
    ensures
        r is Some == (fits_i64(2 * v.x) && fits_i64(2 * v.y)),
        r is Some ==> r->Some_0 == (VelocityComponent { x: (2 * v.x) as i64, y: (2 * v.y) as i64 }),
{
    match (v.x.checked_mul(2), v.y.checked_mul(2)) {
        (Some(x), Some(y)) => Some(VelocityComponent { x, y }),
        _ => None,
    }
}

/// Doubles the velocity of every entity that has one. When some velocity
/// would leave the coordinate range, no velocity changes.
pub fn boost_velocities(world: &mut hecs::World) -> (r: Result<(), StepError>)
    ensures
        reserved_of(*final(world)) == reserved_of(*old(world)),
        r is Ok == boost_fits(entities_of(*old(world))),
        r is Err ==> r->Err_0 == StepError::VelocityOutOfRange,
        entities_of(*final(world)) == if r is Ok {
            boosted(entities_of(*old(world)))
        } else {
            entities_of(*old(world))
        },
{
    let ghost m0 = entities_of(*world);
    let items = snapshot(world);
    let mut i: usize = 0;
    while i < items.len()
        invariant
            0 <= i <= items.len(),
            lists_exactly(items@, m0),
            m0 == entities_of(*old(world)),
            reserved_of(*world) == reserved_of(*old(world)),
            m0 == entities_of(*world),
            forall|j: int| 0 <= j < i ==> boost_record_fits(#[trigger] items@[j].1),
        decreases items.len() - i,
    {
        let (_, rec) = items[i];
        if let Some(v) = rec.velocity {
            if doubled(v).is_none() {
                proof {
                    assert(m0.contains_key(items@[i as int].0));
                }
                return Err(StepError::VelocityOutOfRange);
            }
        }
        i = i + 1;
    }
    assert(boost_fits(m0)) by {
        assert forall|e: hecs::Entity| #[trigger] m0.contains_key(e) implies boost_record_fits(m0[e]) by {
            let j = choose|j: int| 0 <= j < items@.len() && items@[j].0 == e;
            assert(boost_record_fits(items@[j].1));
        }
    }
    let mut i: usize = 0;
    while i < items.len()
        invariant
            0 <= i <= items.len(),
            lists_exactly(items@, m0),
            m0 == entities_of(*old(world)),
            reserved_of(*world) == reserved_of(*old(world)),
            boost_fits(m0),
            entities_of(*world).dom() == m0.dom(),
            forall|j: int| 0 <= j < i ==> entities_of(*world)[#[trigger] items@[j].0] == boost_record(m0[items@[j].0]),
            forall|j: int| i <= j < items@.len() ==> entities_of(*world)[#[trigger] items@[j].0] == m0[items@[j].0],
        decreases items.len() - i,
    {
        let (e, rec) = items[i];
        proof {
            assert(m0.contains_key(items@[i as int].0));
        }
        if let Some(v) = rec.velocity {
            let faster = doubled(v).unwrap();
            let _ = write_velocity(world, e, faster);
        }
        proof {
            assert forall|j: int| 0 <= j < items@.len() && j != i implies items@[j].0 != items@[i as int].0 by {
                if j < i {
                    assert(items@[j].0 != items@[i as int].0);
                } else {
                    assert(items@[i as int].0 != items@[j].0);
                }
            }
        }
        i = i + 1;
    }
    proof {
        assert(entities_of(*world) =~= boosted(m0)) by {
            assert forall|e: hecs::Entity| #[trigger] m0.contains_key(e) implies entities_of(*world)[e] == boost_record(m0[e]) by {
                let j = choose|j: int| 0 <= j < items@.len() && items@[j].0 == e;
                assert(entities_of(*world)[items@[j].0] == boost_record(m0[items@[j].0]));
            }
        }
    }
    Ok(())
}

/// The live entities that carry both a position and a velocity, each once,
/// in no particular order.
pub fn query_moving(world: &mut hecs::World) -> (r: Vec<hecs::Entity>)
    ensures
        reserved_of(*final(world)) == reserved_of(*old(world)),
        entities_of(*final(world)) == entities_of(*old(world)),
        forall|i: int, j: int| 0 <= i < j < r@.len() ==> r@[i] != r@[j],
        forall|e: hecs::Entity| #[trigger] r@.contains(e) <==> (entities_of(*old(world)).contains_key(e) && moves(entities_of(*old(world))[e])),
{
    let ghost m = entities_of(*world);
    let items = snapshot(world);
    let mut out: Vec<hecs::Entity> = Vec::new();
    let mut i: usize = 0;
    while i < items.len()
        invariant
            0 <= i <= items.len(),
            lists_exactly(items@, m),
            m == entities_of(*world),
            forall|a: int, b: int| 0 <= a < b < out@.len() ==> out@[a] != out@[b],
            forall|e: hecs::Entity| #[trigger] out@.contains(e) <==> exists|j: int| 0 <= j < i && items@[j].0 == e && moves(items@[j].1),
        decreases items.len() - i,
    {
        let (e, rec) = items[i];
        let ghost before = out@;
        if rec.position.is_some() && rec.velocity.is_some() {
            proof {
                assert forall|a: int| 0 <= a < before.len() implies before[a] != e by {
                    assert(before.contains(before[a]));
                    let j = choose|j: int| 0 <= j < i && items@[j].0 == before[a] && moves(items@[j].1);
                    assert(items@[j].0 != items@[i as int].0);
                }
            }
            out.push(e);
        }
        proof {
            assert forall|x: hecs::Entity| #[trigger] out@.contains(x) <==> exists|j: int| 0 <= j < i + 1 && items@[j].0 == x && moves(items@[j].1) by {
                if out@.contains(x) {
                    let k = choose|k: int| 0 <= k < out@.len() && out@[k] == x;
                    if k < before.len() {
                        assert(before.contains(x));
                    }
                } 
                if exists|j: int| 0 <= j < i + 1 && items@[j].0 == x && moves(items@[j].1) {
                    let j = choose|j: int| 0 <= j < i + 1 && items@[j].0 == x && moves(items@[j].1);
                    if j < i {
                        assert(before.contains(x));
                        let k = choose|k: int| 0 <= k < before.len() && before[k] == x;
                        assert(out@[k] == x);
                    } else {
                        assert(out@[out@.len() - 1] == x);
                    }
                }
            }
        }
        i = i + 1;
    }
    proof {
        assert forall|e: hecs::Entity| #[trigger] out@.contains(e) <==> (m.contains_key(e) && moves(m[e])) by {
            if m.contains_key(e) && moves(m[e]) {
                let j = choose|j: int| 0 <= j < items@.len() && items@[j].0 == e;
                assert(moves(items@[j].1));
            }
            if out@.contains(e) {
                let j = choose|j: int| 0 <= j < items@.len() && items@[j].0 == e && moves(items@[j].1);
                assert(m.contains_key(items@[j].0));
            }
        }
    }
    out
}

/// Radius, in pixels, of the circle drawn where no texture is cached.
pub const FALLBACK_RADIUS: u32 = 10;

/// One draw call of the render pass.
#[derive(Clone, Copy, Debug, PartialEq, Eq, Structural)]
pub enum DrawCommand {
    /// The texture asked for, at a position.
    Sprite { at: PositionComponent },
    /// A filled circle, where no texture is cached.
    Circle { at: PositionComponent, radius: u32 },
    /// The overlay that prints a position's value.
    PositionLabel { value: PositionComponent },
    /// The decorative line of text of an entity with a text marker.
    Greeting { at: PositionComponent },
}

/// The draw calls for one entity: a sprite when the texture is cached, else a
/// circle; the overlay of its position; and the greeting when it has a text
/// marker. An entity without a position draws nothing.
pub open spec fn entity_draws(rec: EntityRecord, has_texture: bool) -> Seq<DrawCommand> {
    match rec.position {
        Some(p) => seq![
            if has_texture {
                DrawCommand::Sprite { at: p }
            } else {
                DrawCommand::Circle { at: p, radius: FALLBACK_RADIUS }
            },
            DrawCommand::PositionLabel { value: p },
        ] + if rec.text is Some {
            seq![DrawCommand::Greeting { at: p }]
        } else {
            Seq::<DrawCommand>::empty()
        },
        None => Seq::<DrawCommand>::empty(),
    }
}

/// The draw calls for the entities of `s`, in order.
pub open spec fn draws(s: Seq<(hecs::Entity, EntityRecord)>, has_texture: bool) -> Seq<DrawCommand>
    decreases s.len(),
{
    if s.len() == 0 {
        Seq::<DrawCommand>::empty()
    } else {
        draws(s.drop_last(), has_texture) + entity_draws(s.last().1, has_texture)
    }
}

/// The draw calls of one frame: for every entity with a position, in no
/// particular order of entities, the calls of [`entity_draws`], with a sprite
/// of `texture` when the sprite manager holds it.
pub fn render_system<T>(world: &mut hecs::World, sprites: &SpriteManager<T>, texture: &str) -> (r: Vec<DrawCommand>)
    requires
        sprites.wf(),
    ensures
        reserved_of(*final(world)) == reserved_of(*old(world)),
        entities_of(*final(world)) == entities_of(*old(world)),
        exists|s: Seq<(hecs::Entity, EntityRecord)>|
            lists_exactly(s, entities_of(*old(world))) && r@ == draws(s, sprites.textures@.contains_key(texture@)),
{
    let has_texture = sprites.get_texture(texture).is_some();
    let items = snapshot(world);
    let mut out: Vec<DrawCommand> = Vec::new();
    let mut i: usize = 0;
    while i < items.len()
        invariant
            0 <= i <= items.len(),
            out@ == draws(items@.take(i as int), has_texture),
        decreases items.len() - i,
    {
        let (_, rec) = items[i];
        if let Some(p) = rec.position {
            if has_texture {
                out.push(DrawCommand::Sprite { at: p });
            } else {
                out.push(DrawCommand::Circle { at: p, radius: FALLBACK_RADIUS });
            }
            out.push(DrawCommand::PositionLabel { value: p });
            if rec.text.is_some() {
                out.push(DrawCommand::Greeting { at: p });
            }
        }
        proof {
            assert(items@.take(i + 1).drop_last() =~= items@.take(i as int));
            assert(out@ =~= draws(items@.take(i as int), has_texture) + entity_draws(rec, has_texture));
        }
        i = i + 1;
    }
    assert(items@.take(items@.len() as int) =~= items@);
    out
}

/// What the input device reported this frame.
#[derive(Clone, Copy, Debug, PartialEq, Eq, Structural)]
pub struct FrameInput {
    /// Double every velocity.
    pub boost: bool,
    /// Play the hit effect.
    pub hit: bool,
    /// Ask for the larger window.
    pub resize: bool,
}

/// A window size, in pixels.
#[derive(Clone, Copy, Debug, PartialEq, Eq, Structural)]
pub struct WindowSize {
    pub width: u32,
    pub height: u32,
}

/// The window size that a resize asks for.
pub open spec fn resized_window() -> WindowSize {
    WindowSize { width: 1366, height: 768 }
}

/// What the input system did and asks the caller to do.
#[derive(Clone, Debug, PartialEq, Eq)]
pub struct InputResponse {
    /// The outcome of a boost, when one was asked for.
    pub boost: Option<Result<(), StepError>>,
    /// The sound to play, when the hit effect was asked for and is loaded.
    pub sound: Option<PlayRequest>,
    /// The window size to ask for.
    pub resize: Option<WindowSize>,
}

/// Handles one frame of input: a boost doubles every velocity, a hit asks for
/// the hit effect, and a resize asks for a window of 1366 by 768 pixels.
pub fn input_handle_system<S>(world: &mut hecs::World, sounds: &SoundManager<S>, input: FrameInput) -> (r: InputResponse)
    requires
        sounds.wf(),
    ensures
        reserved_of(*final(world)) == reserved_of(*old(world)),
        r.boost is Some == input.boost,
        input.boost ==> (r.boost->Some_0 is Ok == boost_fits(entities_of(*old(world)))),
        entities_of(*final(world)) == if input.boost && boost_fits(entities_of(*old(world))) {
            boosted(entities_of(*old(world)))
        } else {
            entities_of(*old(world))
        },
        r.sound is Some == (input.hit && sounds.sounds@.contains_key("Hit"@)),
        r.sound is Some ==> play_request(sounds.sounds@["Hit"@]@, false, FULL_VOLUME, r.sound->Some_0),
        r.resize == if input.resize { Some(resized_window()) } else { None::<WindowSize> },
{
    let boost = if input.boost {
        Some(boost_velocities(world))
    } else {
        None
    };
    let sound = if input.hit {
        sounds.play_hit_sound()
    } else {
        None
    };
    let resize = if input.resize {
        Some(WindowSize { width: 1366, height: 768 })
    } else {
        None
    };
    InputResponse { boost, sound, resize }
}

} // verus!
