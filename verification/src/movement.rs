use vstd::prelude::*;

verus! {

use crate::MAX_FRAME_MS;
use crate::PLAYER_SPEED;
use crate::entities::Player;
use crate::input::HeldKeys;
use crate::input::moving_diagonally;
use crate::input::net_dx;
use crate::input::net_dy;
use vstd::arithmetic::div_mod::lemma_div_pos_is_pos;
use vstd::arithmetic::div_mod::lemma_fundamental_div_mod;
use vstd::arithmetic::div_mod::lemma_mod_bound;

/// Distance covered in one frame at full speed, in milli-units. Speed is in
/// units per second, which is milli-units per millisecond, so this is exact.
pub open spec fn displacement_magnitude(dt_ms: int) -> int {
    PLAYER_SPEED as int * dt_ms
}

/// The per-axis share of a diagonal move of total length `d`: `d / sqrt(2)`,
/// rounded down over a million-fold scale. The scale numerator is the largest
/// one that keeps the diagonal move no longer than an axis-aligned one.
pub open spec fn diagonal_component(d: int) -> int {
    (d * 707106) / 1000000
}

/// Signed displacement along the x axis for one frame: the net direction
/// times the frame distance, shortened on a diagonal so that the whole move
/// is not faster than an axis-aligned one.
pub open spec fn displacement_x(k: HeldKeys, dt_ms: int) -> int {
    if moving_diagonally(k) {
        net_dx(k) * diagonal_component(displacement_magnitude(dt_ms))
    } else {
        net_dx(k) * displacement_magnitude(dt_ms)
    }
}

/// Signed displacement along the y axis for one frame.
pub open spec fn displacement_y(k: HeldKeys, dt_ms: int) -> int {
    if moving_diagonally(k) {
        net_dy(k) * diagonal_component(displacement_magnitude(dt_ms))
    } else {
        net_dy(k) * displacement_magnitude(dt_ms)
    }
}

/// The diagonal share is nonnegative, no longer than the full distance, and
/// short enough that two squared shares fit under the squared distance.
pub proof fn lemma_diagonal_component_bounds(d: int)
    requires
        0 <= d,
    ensures
        0 <= diagonal_component(d) <= d,
        diagonal_component(d) * diagonal_component(d) + diagonal_component(d) * diagonal_component(d)
            <= d * d,
{
    let c: int = diagonal_component(d);
    let x: int = d * 707106;
    assert(0 <= x);
    lemma_div_pos_is_pos(x, 1000000);
    lemma_fundamental_div_mod(x, 1000000);
    lemma_mod_bound(x, 1000000);
    assert(1000000 * c <= x);
    assert(707106 * d <= 1000000 * d);
    assert(c <= d);
    assert(c * c + c * c <= d * d) by (nonlinear_arith)
        requires
            0 <= c,
            0 <= d,
            1000000 * c <= 707106 * d,
    ;
}

/// Squaring a displacement of magnitude `m` and sign `s`.
proof fn lemma_sign_square(s: int, m: int)
    requires
        s == -1 || s == 0 || s == 1,
    ensures
        s != 0 ==> (s * m) * (s * m) == m * m,
        s == 0 ==> s * m == 0 && (s * m) * (s * m) == 0,
{
    assert((s != 0 ==> (s * m) * (s * m) == m * m) && (s == 0 ==> s * m == 0 && (s * m) * (s
        * m) == 0)) by (nonlinear_arith)
        requires
            s == -1 || s == 0 || s == 1,
    ;
}

/// Law: the squared length of the frame displacement never exceeds the
/// squared frame distance `speed * dt`, and equals it exactly whenever the
/// net direction is along a single axis.
pub proof fn lemma_displacement_bounded(k: HeldKeys, dt_ms: int)
    requires
        0 <= dt_ms,
    ensures
        displacement_x(k, dt_ms) * displacement_x(k, dt_ms)
            + displacement_y(k, dt_ms) * displacement_y(k, dt_ms)
            <= displacement_magnitude(dt_ms) * displacement_magnitude(dt_ms),
        (net_dx(k) != 0 || net_dy(k) != 0) && !moving_diagonally(k)
            ==> displacement_x(k, dt_ms) * displacement_x(k, dt_ms)
                + displacement_y(k, dt_ms) * displacement_y(k, dt_ms)
                == displacement_magnitude(dt_ms) * displacement_magnitude(dt_ms),
{
    let d: int = displacement_magnitude(dt_ms);
    let c: int = diagonal_component(d);
    lemma_diagonal_component_bounds(d);
    if moving_diagonally(k) {
        lemma_sign_square(net_dx(k), c);
        lemma_sign_square(net_dy(k), c);
        assert(displacement_x(k, dt_ms) * displacement_x(k, dt_ms) == c * c);
        assert(displacement_y(k, dt_ms) * displacement_y(k, dt_ms) == c * c);
    } else {
        lemma_sign_square(net_dx(k), d);
        lemma_sign_square(net_dy(k), d);
        if net_dx(k) == 0 && net_dy(k) == 0 {
            assert(displacement_x(k, dt_ms) == 0);
            assert(displacement_y(k, dt_ms) == 0);
            assert(0 <= d * d) by (nonlinear_arith)
                requires
                    0 <= d,
            ;
        } else if net_dx(k) != 0 {
            assert(net_dy(k) == 0);
            assert(displacement_x(k, dt_ms) * displacement_x(k, dt_ms) == d * d);
            assert(displacement_y(k, dt_ms) == 0);
        } else {
            assert(displacement_x(k, dt_ms) == 0);
            assert(displacement_y(k, dt_ms) * displacement_y(k, dt_ms) == d * d);
        }
    }
}

/// Law: opposite keys on one axis cancel: the frame displacement on that
/// axis is zero. This covers both keys held and neither key held.
pub proof fn lemma_opposite_keys_cancel(k: HeldKeys, dt_ms: int)
    ensures
        k.left == k.right ==> displacement_x(k, dt_ms) == 0,
        k.up == k.down ==> displacement_y(k, dt_ms) == 0,
{
    assert(0 * diagonal_component(displacement_magnitude(dt_ms)) == 0);
    assert(0 * displacement_magnitude(dt_ms) == 0);
}

/// Applies a sign in `{-1, 0, 1}` to a nonnegative magnitude.
fn signed_step(sign: i64, mag: i64) -> (r: i64)
    requires
        -1 <= sign <= 1,
        0 <= mag,
    ensures
        r == sign as int * mag as int,
        -mag <= r <= mag,
{
    if sign == 1 {
        assert(1 * mag as int == mag as int);
        mag
    } else if sign == -1 {
        assert((-1) * mag as int == -(mag as int));
        -mag
    } else {
        assert(0 * mag as int == 0);
        0
    }
}

/// Moves one player by this frame's displacement.
pub fn move_player(p: &mut Player, keys: &HeldKeys, dt_ms: i64)
    requires
        0 <= dt_ms <= MAX_FRAME_MS,
        old(p).position.wf(),
    ensures
        final(p).position.x == old(p).position.x + displacement_x(*keys, dt_ms as int),
        final(p).position.y == old(p).position.y + displacement_y(*keys, dt_ms as int),
{
    let d: i64 = PLAYER_SPEED * dt_ms;
    let mut dx: i64 = 0;
    let mut dy: i64 = 0;
    if keys.left {
        dx = dx - 1;
    }
    if keys.right {
        dx = dx + 1;
    }
    if keys.up {
        dy = dy + 1;
    }
    if keys.down {
        dy = dy - 1;
    }
    assert(dx as int == net_dx(*keys));
    assert(dy as int == net_dy(*keys));
    let mag: i64 = if dx != 0 && dy != 0 {
        proof {
            lemma_diagonal_component_bounds(d as int);
        }
        (d * 707106) / 1000000
    } else {
        d
    };
    let step_x: i64 = signed_step(dx, mag);
    let step_y: i64 = signed_step(dy, mag);
    p.position.x = p.position.x + step_x;
    p.position.y = p.position.y + step_y;
}

/// Per-frame movement: reads the held keys and moves the player if one
/// exists; does nothing otherwise.
pub fn player_movememnt(player: &mut Option<Player>, keys: &HeldKeys, dt_ms: i64)
    requires
        0 <= dt_ms <= MAX_FRAME_MS,
        (*old(player)) matches Some(p) ==> p.position.wf(),
    ensures
        (*old(player)) is None ==> (*final(player)) is None,
        (*old(player)) matches Some(p) ==> ((*final(player)) matches Some(q)
            && q.position.x == p.position.x + displacement_x(*keys, dt_ms as int)
            && q.position.y == p.position.y + displacement_y(*keys, dt_ms as int)),
{
    match player {
        Some(p) => move_player(p, keys, dt_ms),
        None => {},
    }
}

} // verus!
