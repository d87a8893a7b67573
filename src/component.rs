use vstd::prelude::*;

verus! {

/// Where an entity stands, in micro-pixels (a millionth of a pixel).
#[derive(Clone, Copy, Debug, PartialEq, Eq, Structural)]
pub struct PositionComponent {
    pub x: i64,
    pub y: i64,
}

/// How fast an entity moves, in milli-pixels per second.
///
/// A velocity applied for `ms` milliseconds moves an entity by exactly
/// `velocity * ms` micro-pixels, so integration never rounds.
#[derive(Clone, Copy, Debug, PartialEq, Eq, Structural)]
pub struct VelocityComponent {
    pub x: i64,
    pub y: i64,
}

/// Marks an entity that carries a decorative line of text.
#[derive(Clone, Copy, Debug, PartialEq, Eq, Structural)]
pub struct TextComponent {}

/// The components of one entity, as the simulation sees them.
#[derive(Clone, Copy, Debug, PartialEq, Eq, Structural)]
pub struct EntityRecord {
    pub position: Option<PositionComponent>,
    pub velocity: Option<VelocityComponent>,
    pub text: Option<TextComponent>,
}

} // verus!
