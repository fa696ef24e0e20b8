//! Movement: velocity normalization, the frame update, and clamping to the
//! debug bounds box.

use springfield_meltdown::game::GameState;
use springfield_meltdown::input::velocity_from_input;
use springfield_meltdown::input::Input;

fn keys(up: bool, down: bool, left: bool, right: bool) -> Input {
    Input { up, down, left, right }
}

#[test]
fn velocity_idle_is_zero() {
    assert_eq!(velocity_from_input(keys(false, false, false, false)), (0, 0));
}

#[test]
fn velocity_single_keys_are_unit() {
    assert_eq!(velocity_from_input(keys(true, false, false, false)), (0, -1000));
    assert_eq!(velocity_from_input(keys(false, true, false, false)), (0, 1000));
    assert_eq!(velocity_from_input(keys(false, false, true, false)), (-1000, 0));
    assert_eq!(velocity_from_input(keys(false, false, false, true)), (1000, 0));
}

#[test]
fn velocity_diagonals_are_normalized() {
    assert_eq!(velocity_from_input(keys(true, false, false, true)), (707, -707));
    assert_eq!(velocity_from_input(keys(true, false, true, false)), (-707, -707));
    assert_eq!(velocity_from_input(keys(false, true, false, true)), (707, 707));
    assert_eq!(velocity_from_input(keys(false, true, true, false)), (-707, 707));
}

#[test]
fn velocity_opposite_keys_cancel() {
    assert_eq!(velocity_from_input(keys(true, true, false, false)), (0, 0));
    assert_eq!(velocity_from_input(keys(false, false, true, true)), (0, 0));
    assert_eq!(velocity_from_input(keys(true, true, true, true)), (0, 0));
    // One axis cancels, the other moves alone at unit length.
    assert_eq!(velocity_from_input(keys(true, true, false, true)), (1000, 0));
    assert_eq!(velocity_from_input(keys(true, false, true, true)), (0, -1000));
}

#[test]
fn update_moves_right() {
    let mut s = GameState::new();
    // 1000 per-mille * 300 px/s * 100 ms / 1000 = 30_000 millipixels = 30 px.
    s.update(keys(false, false, false, true), 100);
    assert_eq!(s.player.pos_x, 30_000);
    assert_eq!(s.player.pos_y, 0);
    assert_eq!(s.player.vel_x, 1000);
    assert_eq!(s.player.vel_y, 0);
}

#[test]
fn update_moves_diagonally() {
    let mut s = GameState::new();
    // 707 per-mille * 300 px/s * 100 ms / 1000 = 21_210 millipixels per axis.
    s.update(keys(true, false, false, true), 100);
    assert_eq!(s.player.pos_x, 21_210);
    assert_eq!(s.player.pos_y, -21_210);
}

#[test]
fn update_without_keys_stays_put() {
    let mut s = GameState::new();
    s.update(keys(false, false, false, true), 100);
    s.update(keys(false, false, false, false), 1000);
    assert_eq!(s.player.pos_x, 30_000);
    assert_eq!(s.player.pos_y, 0);
    assert_eq!(s.player.vel_x, 0);
}

#[test]
fn update_clamps_to_right_edge() {
    let mut s = GameState::new();
    // A whole second at full speed would overshoot the box; the position is
    // clamped to the right edge minus the radius: 300_000 - 16_000.
    for _ in 0..10 {
        s.update(keys(false, false, false, true), 1000);
    }
    assert_eq!(s.player.pos_x, 284_000);
    assert_eq!(s.player.pos_y, 0);
}

#[test]
fn update_clamps_to_all_edges() {
    let mut s = GameState::new();
    for _ in 0..10 {
        s.update(keys(false, false, true, false), 1000);
    }
    assert_eq!(s.player.pos_x, -284_000);
    let mut s = GameState::new();
    for _ in 0..10 {
        s.update(keys(true, false, false, false), 1000);
    }
    assert_eq!(s.player.pos_y, -184_000);
    let mut s = GameState::new();
    for _ in 0..10 {
        s.update(keys(false, true, false, false), 1000);
    }
    assert_eq!(s.player.pos_y, 184_000);
}

#[test]
fn position_stays_in_bounds_over_many_frames() {
    let frames = [
        keys(false, false, false, true),
        keys(true, false, false, true),
        keys(false, true, true, false),
        keys(true, false, true, false),
        keys(false, true, false, true),
        keys(false, false, true, false),
    ];
    let mut s = GameState::new();
    for i in 0..600 {
        s.update(frames[i % frames.len()], 16 + (i as u64 % 50));
        assert!(s.player.pos_x >= -284_000 && s.player.pos_x <= 284_000);
        assert!(s.player.pos_y >= -184_000 && s.player.pos_y <= 184_000);
    }
}
