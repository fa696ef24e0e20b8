//! The isometric world-to-screen transform and the per-frame render layout.

use springfield_meltdown::game::GameState;
use springfield_meltdown::input::Input;
use springfield_meltdown::iso::world_to_screen;
use springfield_meltdown::iso::Vec2;
use springfield_meltdown::render::frame_layout;

#[test]
fn world_origin_maps_to_camera_offset() {
    let p = world_to_screen(Vec2 { x: 0, y: 0 }, Vec2 { x: 5_000, y: 7_000 });
    assert_eq!(p, Vec2 { x: 5_000, y: 7_000 });
}

#[test]
fn world_to_screen_spreads_axes() {
    // (x - y) * 16 horizontally, (x + y) * 8 vertically.
    let p = world_to_screen(Vec2 { x: 1000, y: 2000 }, Vec2 { x: 0, y: 0 });
    assert_eq!(p, Vec2 { x: -16_000, y: 24_000 });
}

#[test]
fn world_to_screen_applies_camera_offset() {
    let p = world_to_screen(Vec2 { x: 1000, y: 2000 }, Vec2 { x: 5_000, y: 7_000 });
    assert_eq!(p, Vec2 { x: -11_000, y: 31_000 });
}

#[test]
fn layout_of_fresh_game_centers_origin() {
    let s = GameState::new();
    let l = frame_layout(&s);
    assert_eq!(l.camera_offset, Vec2 { x: 400_000, y: 300_000 });
    assert_eq!(l.bounds_pos, Vec2 { x: 100_000, y: 100_000 });
    assert_eq!(l.bounds_size, Vec2 { x: 600_000, y: 400_000 });
    assert_eq!(l.player_screen_pos, Vec2 { x: 400_000, y: 300_000 });
}

#[test]
fn layout_follows_the_player() {
    let mut s = GameState::new();
    let input = Input { up: false, down: false, left: false, right: true };
    s.update(input, 100);
    // Player moved 30 px right; the camera shifts left by the same amount
    // and the player is still drawn at the screen center.
    let l = frame_layout(&s);
    assert_eq!(l.camera_offset, Vec2 { x: 370_000, y: 300_000 });
    assert_eq!(l.bounds_pos, Vec2 { x: 70_000, y: 100_000 });
    assert_eq!(l.player_screen_pos, Vec2 { x: 400_000, y: 300_000 });
}
