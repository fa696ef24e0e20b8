//! The per-frame layout the renderer draws from.
//!
//! The camera follows the player: the offset places the world origin so that
//! the player always appears at the screen center, and the debug bounds box
//! moves with the camera. The host turns these millipixel values into its
//! own drawing calls.

use vstd::prelude::*;
use crate::game::GameState;
use crate::iso::Vec2;
use crate::units::SCREEN_CENTER_X;
use crate::units::SCREEN_CENTER_Y;

verus! {

/// World-space left edge of the debug bounds box, millipixels.
pub const WORLD_BOUNDS_X: i64 = -300_000;

/// World-space top edge of the debug bounds box, millipixels.
pub const WORLD_BOUNDS_Y: i64 = -200_000;

/// Width of the debug bounds box, millipixels (600 pixels).
pub const WORLD_BOUNDS_W: i64 = 600_000;

/// Height of the debug bounds box, millipixels (400 pixels).
pub const WORLD_BOUNDS_H: i64 = 400_000;

/// Everything the renderer needs for one frame, in millipixels.
#[derive(Clone, Copy, Debug)]
pub struct FrameLayout {
    /// Camera offset that keeps the player at the screen center.
    pub camera_offset: Vec2,
    /// Screen-space top-left corner of the debug bounds box.
    pub bounds_pos: Vec2,
    /// Size of the debug bounds box.
    pub bounds_size: Vec2,
    /// Screen position of the player circle's center.
    pub player_screen_pos: Vec2,
}

/// Compute the layout of one frame: the camera offset is the screen center
/// minus the player position, the bounds box is shifted by that offset, and
/// the player itself is drawn at the screen center.
pub fn frame_layout(state: &GameState) -> (l: FrameLayout)
    requires
        state.wf(),
    ensures
        l.camera_offset.x as int == SCREEN_CENTER_X - state.player.pos_x,
        l.camera_offset.y as int == SCREEN_CENTER_Y - state.player.pos_y,
        l.bounds_pos.x as int == WORLD_BOUNDS_X + l.camera_offset.x,
        l.bounds_pos.y as int == WORLD_BOUNDS_Y + l.camera_offset.y,
        l.bounds_size.x == WORLD_BOUNDS_W,
        l.bounds_size.y == WORLD_BOUNDS_H,
        l.player_screen_pos.x == SCREEN_CENTER_X,
        l.player_screen_pos.y == SCREEN_CENTER_Y,
{
    let cam_x: i64 = SCREEN_CENTER_X - state.player.pos_x;
    let cam_y: i64 = SCREEN_CENTER_Y - state.player.pos_y;
    FrameLayout {
        camera_offset: Vec2 { x: cam_x, y: cam_y },
        bounds_pos: Vec2 { x: WORLD_BOUNDS_X + cam_x, y: WORLD_BOUNDS_Y + cam_y },
        bounds_size: Vec2 { x: WORLD_BOUNDS_W, y: WORLD_BOUNDS_H },
        player_screen_pos: Vec2 { x: SCREEN_CENTER_X, y: SCREEN_CENTER_Y },
    }
}

} // verus!
