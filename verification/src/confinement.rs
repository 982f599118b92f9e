use vstd::prelude::*;

verus! {

use crate::MAX_COORD;
use crate::PLAYER_SIZE;
use crate::entities::Player;
use crate::geom::WindowSize;

/// Half the player sprite, in milli-units: the margin the player's centre
/// keeps from each window edge.
pub open spec fn half_player_size() -> int {
    PLAYER_SIZE as int / 2
}

/// Lowest admissible x-coordinate for the player's centre.
pub open spec fn x_low(w: WindowSize) -> int {
    half_player_size()
}

/// Highest admissible x-coordinate for the player's centre.
pub open spec fn x_high(w: WindowSize) -> int {
    w.width - half_player_size()
}

/// Lowest admissible y-coordinate for the player's centre.
pub open spec fn y_low(w: WindowSize) -> int {
    half_player_size()
}

/// Highest admissible y-coordinate for the player's centre.
pub open spec fn y_high(w: WindowSize) -> int {
    w.height - half_player_size()
}

/// One axis of the wrap rule: a coordinate below the low bound jumps to the
/// high bound, one above the high bound jumps to the low bound, and anything
/// in between stays where it is. This is a teleport-style wrap, not a clamp.
pub open spec fn confine_axis(v: int, low: int, high: int) -> int {
    if v < low {
        high
    } else if v > high {
        low
    } else {
        v
    }
}

/// Wraps the player's centre to the opposite edge on each axis it has left,
/// independently per axis.
pub fn confine_player(p: &mut Player, window: &WindowSize)
    requires
        0 <= window.width <= MAX_COORD,
        0 <= window.height <= MAX_COORD,
    ensures
        final(p).position.x == confine_axis(old(p).position.x as int, x_low(*window), x_high(*window)),
        final(p).position.y == confine_axis(old(p).position.y as int, y_low(*window), y_high(*window)),
{
    let half_size: i64 = PLAYER_SIZE / 2;
    let x_min: i64 = half_size;
    let x_max: i64 = window.width - half_size;
    let y_min: i64 = half_size;
    let y_max: i64 = window.height - half_size;
    if p.position.x < x_min {
        p.position.x = x_max;
    } else if p.position.x > x_max {
        p.position.x = x_min;
    }
    if p.position.y < y_min {
        p.position.y = y_max;
    } else if p.position.y > y_max {
        p.position.y = y_min;
    }
}

/// Per-frame confinement: wraps the player if one exists, and does nothing
/// otherwise.
pub fn confine_player_movement(player: &mut Option<Player>, window: &WindowSize)
    requires
        0 <= window.width <= MAX_COORD,
        0 <= window.height <= MAX_COORD,
    ensures
        (*old(player)) is None ==> (*final(player)) is None,
        (*old(player)) matches Some(p) ==> ((*final(player)) matches Some(q)
            && q.position.x == confine_axis(p.position.x as int, x_low(*window), x_high(*window))
            && q.position.y == confine_axis(p.position.y as int, y_low(*window), y_high(*window))),
{
    match player {
        Some(p) => confine_player(p, window),
        None => {},
    }
}

/// Law: the wrap rule, spelled out for each boundary crossing. Leaving below
/// the low bound lands on the high bound, leaving above the high bound lands
/// on the low bound, and a coordinate within the bounds is untouched.
pub proof fn lemma_wrap_law(v: int, low: int, high: int)
    requires
        low <= high,
    ensures
        v < low ==> confine_axis(v, low, high) == high,
        v > high ==> confine_axis(v, low, high) == low,
        low <= v <= high ==> confine_axis(v, low, high) == v,
{
}

/// Law: with ordered bounds, confinement lands inside the bounds, and a
/// second confinement with no movement in between changes nothing.
pub proof fn lemma_confine_axis_idempotent(v: int, low: int, high: int)
    requires
        low <= high,
    ensures
        low <= confine_axis(v, low, high) <= high,
        confine_axis(confine_axis(v, low, high), low, high) == confine_axis(v, low, high),
{
}

/// Law: for a well-formed window the same holds of both player axes at once.
pub proof fn lemma_confinement_idempotent(x: int, y: int, w: WindowSize)
    requires
        w.wf(),
    ensures
        confine_axis(confine_axis(x, x_low(w), x_high(w)), x_low(w), x_high(w))
            == confine_axis(x, x_low(w), x_high(w)),
        confine_axis(confine_axis(y, y_low(w), y_high(w)), y_low(w), y_high(w))
            == confine_axis(y, y_low(w), y_high(w)),
{
    lemma_confine_axis_idempotent(x, x_low(w), x_high(w));
    lemma_confine_axis_idempotent(y, y_low(w), y_high(w));
}

} // verus!
