use vstd::prelude::*;

verus! {

use crate::MAX_FRAME_MS;
use crate::N_ENEMIES;
use crate::confinement::confine_axis;
use crate::confinement::confine_player_movement;
use crate::confinement::x_high;
use crate::confinement::x_low;
use crate::confinement::y_high;
use crate::confinement::y_low;
use crate::entities::Camera;
use crate::entities::Enemy;
use crate::entities::Player;
use crate::geom::WindowSize;
use crate::geom::in_window;
use crate::input::HeldKeys;
use crate::movement::displacement_x;
use crate::movement::displacement_y;
use crate::movement::player_movememnt;
use crate::spawn::spawn_camera;
use crate::spawn::spawn_enemies;
use crate::spawn::spawn_player;

/// The whole game state the startup actions create and the per-frame
/// actions update. `Option` encodes that at most one player and one camera
/// ever exist; the enemy list is fixed at startup.
pub struct GameState {
    pub player: Option<Player>,
    pub camera: Option<Camera>,
    pub enemies: Vec<Enemy>,
}

impl GameState {
    /// The state invariant: the enemy count never changes after startup and
    /// the player, if present, sits within the proved coordinate range.
    pub open spec fn wf(self) -> bool {
        &&& self.enemies@.len() == N_ENEMIES
        &&& (self.player matches Some(p) ==> p.position.wf())
    }
}

/// Startup: spawns the player and the camera at the window's centre and the
/// fixed number of enemies at random positions inside the window.
pub fn init_state(window: &WindowSize) -> (s: GameState)
    requires
        window.wf(),
    ensures
        s.wf(),
        s.player matches Some(p) && p.position.x == window.width as int / 2 && p.position.y
            == window.height as int / 2,
        s.camera matches Some(c) && c.position.x == window.width as int / 2 && c.position.y
            == window.height as int / 2,
        s.enemies@.len() == N_ENEMIES,
        forall|i: int|
            0 <= i < s.enemies@.len() ==> in_window(#[trigger] s.enemies@[i].position, *window),
{
    let player = spawn_player(window);
    let camera = spawn_camera(window);
    let enemies = spawn_enemies(window);
    GameState { player: Some(player), camera: Some(camera), enemies }
}

/// One frame: movement from the held keys, then confinement to the window,
/// in that fixed order. Enemies and camera are untouched; a missing player
/// makes both updates no-ops.
pub fn tick(state: &mut GameState, keys: &HeldKeys, window: &WindowSize, dt_ms: i64)
    requires
        window.wf(),
        old(state).wf(),
        0 <= dt_ms <= MAX_FRAME_MS,
    ensures
        final(state).wf(),
        final(state).enemies == old(state).enemies,
        final(state).camera == old(state).camera,
        old(state).player is None ==> final(state).player is None,
        old(state).player matches Some(p) ==> (final(state).player matches Some(q)
            && q.position.x == confine_axis(
            p.position.x + displacement_x(*keys, dt_ms as int),
            x_low(*window),
            x_high(*window),
        )
            && q.position.y == confine_axis(
            p.position.y + displacement_y(*keys, dt_ms as int),
            y_low(*window),
            y_high(*window),
        )),
{
    player_movememnt(&mut state.player, keys, dt_ms);
    confine_player_movement(&mut state.player, window);
}

} // verus!
