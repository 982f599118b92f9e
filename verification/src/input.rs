use vstd::prelude::*;

verus! {

/// A per-frame snapshot of the four directional keys.
///
/// The vertical axis is inverted relative to screen coordinates on purpose:
/// "up" increases the y-coordinate and "down" decreases it.
#[derive(Clone, Copy, Debug, PartialEq, Eq, Structural)]
pub struct HeldKeys {
    pub left: bool,
    pub right: bool,
    pub up: bool,
    pub down: bool,
}

/// Net horizontal direction: right minus left, so opposite keys cancel.
pub open spec fn net_dx(k: HeldKeys) -> int {
    (if k.right { 1int } else { 0int }) - (if k.left { 1int } else { 0int })
}

/// Net vertical direction: up minus down, so opposite keys cancel.
pub open spec fn net_dy(k: HeldKeys) -> int {
    (if k.up { 1int } else { 0int }) - (if k.down { 1int } else { 0int })
}

/// The net direction points into one of the four diagonal quadrants.
pub open spec fn moving_diagonally(k: HeldKeys) -> bool {
    net_dx(k) != 0 && net_dy(k) != 0
}

} // verus!
