use ball_game::N_ENEMIES;
use ball_game::confinement::confine_player_movement;
use ball_game::entities::Player;
use ball_game::geom::Vec2;
use ball_game::geom::WindowSize;
use ball_game::input::HeldKeys;
use ball_game::movement::player_movememnt;
use ball_game::spawn::enemy_from_draws;
use ball_game::spawn::enemy_sprite_path;
use ball_game::spawn::player_sprite_path;
use ball_game::spawn::spawn_camera;
use ball_game::spawn::spawn_enemies;
use ball_game::spawn::spawn_player;
use ball_game::world::init_state;
use ball_game::world::tick;

// Lengths are in milli-units: 1_000 per world unit. The standard window is
// 800 by 600 units.
fn window() -> WindowSize {
    WindowSize { width: 800_000, height: 600_000 }
}

fn player_at(x: i64, y: i64) -> Option<Player> {
    Some(Player { position: Vec2 { x, y } })
}

fn keys(left: bool, right: bool, up: bool, down: bool) -> HeldKeys {
    HeldKeys { left, right, up, down }
}

#[test]
fn move_left_one_tenth_second() {
    // Window 800x600, player at the centre (400, 300), "left" held for
    // 0.1 s at speed 500: the player ends at (350, 300).
    let mut player = player_at(400_000, 300_000);
    player_movememnt(&mut player, &keys(true, false, false, false), 100);
    let p = player.unwrap();
    assert_eq!(p.position.x, 350_000);
    assert_eq!(p.position.y, 300_000);
}

#[test]
fn move_down_decreases_y() {
    // The vertical axis is inverted: "down" decreases the y-coordinate.
    let mut player = player_at(400_000, 300_000);
    player_movememnt(&mut player, &keys(false, false, false, true), 100);
    let p = player.unwrap();
    assert_eq!(p.position.x, 400_000);
    assert_eq!(p.position.y, 250_000);
}

#[test]
fn opposite_keys_cancel() {
    let mut player = player_at(400_000, 300_000);
    player_movememnt(&mut player, &keys(true, true, true, true), 100);
    let p = player.unwrap();
    assert_eq!(p.position.x, 400_000);
    assert_eq!(p.position.y, 300_000);
}

#[test]
fn no_keys_no_movement() {
    let mut player = player_at(123_456, 654_321);
    player_movememnt(&mut player, &keys(false, false, false, false), 100);
    let p = player.unwrap();
    assert_eq!(p.position.x, 123_456);
    assert_eq!(p.position.y, 654_321);
}

#[test]
fn diagonal_movement_is_normalized() {
    // Holding left and up moves 50 / sqrt(2) = 35.355 units on each axis,
    // not 50: the diagonal move is no faster than an axis-aligned one.
    let mut player = player_at(400_000, 300_000);
    player_movememnt(&mut player, &keys(true, false, true, false), 100);
    let p = player.unwrap();
    assert_eq!(p.position.x, 400_000 - 35_355);
    assert_eq!(p.position.y, 300_000 + 35_355);
    let dx: i64 = 35_355;
    let dy: i64 = 35_355;
    assert!(dx * dx + dy * dy <= 50_000i64 * 50_000);
}

#[test]
fn movement_without_player_is_noop() {
    let mut player: Option<Player> = None;
    player_movememnt(&mut player, &keys(true, false, false, false), 100);
    assert!(player.is_none());
}

#[test]
fn wrap_left_edge_to_right() {
    // Player at x = 30, half size 32: 30 < 32 wraps to 800 - 32 = 768.
    let mut player = player_at(30_000, 300_000);
    confine_player_movement(&mut player, &window());
    let p = player.unwrap();
    assert_eq!(p.position.x, 768_000);
    assert_eq!(p.position.y, 300_000);
}

#[test]
fn wrap_right_edge_to_left() {
    let mut player = player_at(790_000, 300_000);
    confine_player_movement(&mut player, &window());
    let p = player.unwrap();
    assert_eq!(p.position.x, 32_000);
    assert_eq!(p.position.y, 300_000);
}

#[test]
fn wrap_both_axes_independently() {
    let mut player = player_at(10_000, 595_000);
    confine_player_movement(&mut player, &window());
    let p = player.unwrap();
    assert_eq!(p.position.x, 768_000);
    assert_eq!(p.position.y, 32_000);
}

#[test]
fn confinement_within_bounds_is_noop() {
    let mut player = player_at(400_000, 300_000);
    confine_player_movement(&mut player, &window());
    let p = player.unwrap();
    assert_eq!(p.position.x, 400_000);
    assert_eq!(p.position.y, 300_000);
}

#[test]
fn confinement_is_idempotent() {
    // After one wrap the position is inside the bounds, so a second
    // confinement with no movement in between changes nothing.
    let mut player = player_at(-5_000, 900_000);
    confine_player_movement(&mut player, &window());
    let once = player.unwrap().position;
    confine_player_movement(&mut player, &window());
    let twice = player.unwrap().position;
    assert_eq!(once.x, twice.x);
    assert_eq!(once.y, twice.y);
}

#[test]
fn confinement_without_player_is_noop() {
    let mut player: Option<Player> = None;
    confine_player_movement(&mut player, &window());
    assert!(player.is_none());
}

#[test]
fn player_spawns_at_window_centre() {
    let p = spawn_player(&window());
    assert_eq!(p.position.x, 400_000);
    assert_eq!(p.position.y, 300_000);
}

#[test]
fn camera_spawns_at_window_centre() {
    let c = spawn_camera(&window());
    assert_eq!(c.position.x, 400_000);
    assert_eq!(c.position.y, 300_000);
}

#[test]
fn enemies_spawn_inside_window() {
    // Runs the real random draws: every enemy must land inside the window.
    let enemies = spawn_enemies(&window());
    assert_eq!(enemies.len(), N_ENEMIES);
    for e in &enemies {
        assert!(0 <= e.position.x && e.position.x < window().width);
        assert!(0 <= e.position.y && e.position.y < window().height);
    }
}

#[test]
fn enemy_position_from_known_draws() {
    let e = enemy_from_draws(1_000_000_007, 42, &window());
    assert_eq!(e.position.x, 7);
    assert_eq!(e.position.y, 42);
}

#[test]
fn tick_moves_then_confines() {
    // Player near the left edge moving left: movement first takes it past
    // the edge, confinement then wraps it to the right edge. The reverse
    // order would have left it out of bounds.
    let mut state = init_state(&window());
    state.player = player_at(33_000, 300_000);
    tick(&mut state, &keys(true, false, false, false), &window(), 100);
    let p = state.player.unwrap();
    assert_eq!(p.position.x, 768_000);
    assert_eq!(p.position.y, 300_000);
}

#[test]
fn initial_state_is_complete() {
    let state = init_state(&window());
    let p = state.player.expect("player spawned");
    assert_eq!(p.position.x, 400_000);
    assert_eq!(p.position.y, 300_000);
    let c = state.camera.expect("camera spawned");
    assert_eq!(c.position.x, 400_000);
    assert_eq!(c.position.y, 300_000);
    assert_eq!(state.enemies.len(), N_ENEMIES);
    for e in &state.enemies {
        assert!(0 <= e.position.x && e.position.x < window().width);
        assert!(0 <= e.position.y && e.position.y < window().height);
    }
}

#[test]
fn sprite_paths() {
    assert_eq!(player_sprite_path(), "sprites/ball_blue_large.png");
    assert_eq!(enemy_sprite_path(), "sprites/ball_red_large.png");
}
