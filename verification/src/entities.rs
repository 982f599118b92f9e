use vstd::prelude::*;

verus! {

use crate::geom::Vec2;

/// The one player-controlled entity: its centre point in the window.
#[derive(Clone, Copy, Debug, PartialEq, Eq, Structural)]
pub struct Player {
    pub position: Vec2,
}

/// A static enemy entity: placed once at spawn, never moved.
#[derive(Clone, Copy, Debug, PartialEq, Eq, Structural)]
pub struct Enemy {
    pub position: Vec2,
}

/// The single view onto the world, anchored at its position.
#[derive(Clone, Copy, Debug, PartialEq, Eq, Structural)]
pub struct Camera {
    pub position: Vec2,
}

} // verus!
