use vstd::prelude::*;
use crate::geometry::Rect;

verus! {

/// Vertical velocity of the actor (positive: upward).
#[derive(Clone, Copy, Debug, PartialEq, Eq, Structural)]
pub struct Velocity(pub i64);

/// One obstacle of the scrolling pool.
#[derive(Clone, Copy, Debug, PartialEq, Eq, Structural)]
pub struct Building {
    pub body: Rect,
}

/// Whether the actor rests on a building's upper face.
#[derive(Clone, Copy, Debug, PartialEq, Eq, Structural)]
pub struct IsOnFloor(pub bool);

/// The controlled square.
#[derive(Clone, Copy, Debug, PartialEq, Eq, Structural)]
pub struct Actor {
    pub body: Rect,
    pub velocity: Velocity,
    pub on_floor: IsOnFloor,
}

/// Whether the session runs or waits for a resume press.
#[derive(Clone, Copy, Debug, PartialEq, Eq, Structural)]
pub enum AppState {
    InGame,
    Paused,
}

} // verus!
