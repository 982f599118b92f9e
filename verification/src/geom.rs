use vstd::prelude::*;

verus! {

use crate::MAX_COORD;
use crate::PLAYER_SIZE;

/// A point in the plane, in milli-unit coordinates.
#[derive(Clone, Copy, Debug, PartialEq, Eq, Structural)]
pub struct Vec2 {
    pub x: i64,
    pub y: i64,
}

/// Window dimensions, in milli-units.
#[derive(Clone, Copy, Debug, PartialEq, Eq, Structural)]
pub struct WindowSize {
    pub width: i64,
    pub height: i64,
}

impl Vec2 {
    /// Both coordinates stay in the range the arithmetic is proved for.
    pub open spec fn wf(self) -> bool {
        -MAX_COORD <= self.x <= MAX_COORD && -MAX_COORD <= self.y <= MAX_COORD
    }
}

impl WindowSize {
    /// A window the game can run in: large enough on each axis to hold the
    /// player sprite, and within the coordinate range.
    pub open spec fn wf(self) -> bool {
        PLAYER_SIZE <= self.width <= MAX_COORD && PLAYER_SIZE <= self.height <= MAX_COORD
    }
}

/// `p` lies inside the window.
pub open spec fn in_window(p: Vec2, w: WindowSize) -> bool {
    0 <= p.x < w.width && 0 <= p.y < w.height
}

} // verus!
