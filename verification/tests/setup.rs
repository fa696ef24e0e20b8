//! Construction of the player and the game state.

use springfield_meltdown::game::GameState;
use springfield_meltdown::player::Player;

#[test]
fn new_player_has_default_fields() {
    let p = Player::new(12_000, -5_000);
    assert_eq!(p.pos_x, 12_000);
    assert_eq!(p.pos_y, -5_000);
    assert_eq!(p.vel_x, 0);
    assert_eq!(p.vel_y, 0);
    assert_eq!(p.speed, 300);
    assert_eq!(p.hp, 100);
    assert_eq!(p.max_hp, 100);
    assert_eq!(p.radius, 16_000);
    assert_eq!(p.last_shot_ms, 0);
}

#[test]
fn new_game_starts_at_world_origin() {
    let s = GameState::new();
    assert_eq!(s.player.pos_x, 0);
    assert_eq!(s.player.pos_y, 0);
    assert_eq!(s.player.vel_x, 0);
    assert_eq!(s.player.vel_y, 0);
    assert_eq!(s.player.hp, 100);
    assert_eq!(s.player.radius, 16_000);
}
