use vstd::prelude::*;

verus! {

use crate::MAX_COORD;
use crate::N_ENEMIES;
use crate::entities::Camera;
use crate::entities::Enemy;
use crate::entities::Player;
use crate::geom::Vec2;
use crate::geom::WindowSize;
use crate::geom::in_window;

/// Relies on rand::random: a draw from the thread-local generator; nothing
/// is assumed of the value.
#[verifier::external_body]
fn random_u64() -> (r: u64) {
    rand::random::<u64>()
}

/// Texture file for the player sprite.
pub fn player_sprite_path() -> (s: &'static str)
    ensures
        s@ == "sprites/ball_blue_large.png"@,
{
    "sprites/ball_blue_large.png"
}

/// Texture file for an enemy sprite.
pub fn enemy_sprite_path() -> (s: &'static str)
    ensures
        s@ == "sprites/ball_red_large.png"@,
{
    "sprites/ball_red_large.png"
}

/// Startup: creates the one player entity at the window's centre.
pub fn spawn_player(window: &WindowSize) -> (p: Player)
    requires
        0 <= window.width <= MAX_COORD,
        0 <= window.height <= MAX_COORD,
    ensures
        p.position.x == window.width as int / 2,
        p.position.y == window.height as int / 2,
{
    Player { position: Vec2 { x: window.width / 2, y: window.height / 2 } }
}

/// Startup: creates the one view, anchored at the window's centre.
pub fn spawn_camera(window: &WindowSize) -> (c: Camera)
    requires
        0 <= window.width <= MAX_COORD,
        0 <= window.height <= MAX_COORD,
    ensures
        c.position.x == window.width as int / 2,
        c.position.y == window.height as int / 2,
{
    Camera { position: Vec2 { x: window.width / 2, y: window.height / 2 } }
}

/// Places one enemy from two raw random draws: each coordinate is the draw
/// reduced modulo the window dimension, so the enemy lands inside the window
/// whatever the draws were.
pub fn enemy_from_draws(draw_x: u64, draw_y: u64, window: &WindowSize) -> (e: Enemy)
    requires
        0 < window.width <= MAX_COORD,
        0 < window.height <= MAX_COORD,
    ensures
        e.position.x == draw_x as int % (window.width as int),
        e.position.y == draw_y as int % (window.height as int),
        in_window(e.position, *window),
{
    let x: i64 = (draw_x % (window.width as u64)) as i64;
    let y: i64 = (draw_y % (window.height as u64)) as i64;
    Enemy { position: Vec2 { x, y } }
}

/// Startup: draws random positions and creates the fixed number of enemies,
/// each one somewhere inside the window.
pub fn spawn_enemies(window: &WindowSize) -> (enemies: Vec<Enemy>)
    requires
        0 < window.width <= MAX_COORD,
        0 < window.height <= MAX_COORD,
    ensures
        enemies@.len() == N_ENEMIES,
        forall|i: int|
            0 <= i < enemies@.len() ==> in_window(#[trigger] enemies@[i].position, *window),
{
    let mut enemies: Vec<Enemy> = Vec::new();
    while enemies.len() < N_ENEMIES
        invariant
            0 < window.width <= MAX_COORD,
            0 < window.height <= MAX_COORD,
            enemies@.len() <= N_ENEMIES,
            forall|i: int|
                0 <= i < enemies@.len() ==> in_window(#[trigger] enemies@[i].position, *window),
        decreases N_ENEMIES - enemies@.len(),
    {
        let draw_x: u64 = random_u64();
        let draw_y: u64 = random_u64();
        let e = enemy_from_draws(draw_x, draw_y, window);
        enemies.push(e);
    }
    enemies
}

} // verus!
