//! The isometric world-to-screen coordinate transform.
//!
//! The transform is computed here but purely visual: gameplay movement is in
//! screen space, and the host may apply this projection when it draws.

use vstd::prelude::*;
use crate::units::COORD_LIMIT;
use crate::units::TILE_HEIGHT_HALF;
use crate::units::TILE_WIDTH_HALF;

verus! {

/// A point in millipixel coordinates.
#[derive(Clone, Copy, PartialEq, Eq, Structural, Debug)]
pub struct Vec2 {
    /// Horizontal coordinate, millipixels.
    pub x: i64,
    /// Vertical coordinate, millipixels.
    pub y: i64,
}

/// Horizontal screen coordinate of a world point under the isometric
/// projection, given the camera offset.
pub open spec fn iso_screen_x(wx: int, wy: int, cam_x: int) -> int {
    (wx - wy) * TILE_WIDTH_HALF + cam_x
}

/// Vertical screen coordinate of a world point under the isometric
/// projection, given the camera offset.
pub open spec fn iso_screen_y(wx: int, wy: int, cam_y: int) -> int {
    (wx + wy) * TILE_HEIGHT_HALF + cam_y
}

/// World position to screen position under the isometric projection: the
/// difference of the world axes spreads along half a tile width, their sum
/// along half a tile height, and the camera offset shifts the result.
pub fn world_to_screen(world_pos: Vec2, camera_offset: Vec2) -> (screen: Vec2)
    requires
        -COORD_LIMIT <= world_pos.x <= COORD_LIMIT,
        -COORD_LIMIT <= world_pos.y <= COORD_LIMIT,
        -COORD_LIMIT <= camera_offset.x <= COORD_LIMIT,
        -COORD_LIMIT <= camera_offset.y <= COORD_LIMIT,
    ensures
        screen.x as int == iso_screen_x(world_pos.x as int, world_pos.y as int, camera_offset.x as int),
        screen.y as int == iso_screen_y(world_pos.x as int, world_pos.y as int, camera_offset.y as int),
{
    let screen_x: i64 = (world_pos.x - world_pos.y) * TILE_WIDTH_HALF + camera_offset.x;
    let screen_y: i64 = (world_pos.x + world_pos.y) * TILE_HEIGHT_HALF + camera_offset.y;
    Vec2 { x: screen_x, y: screen_y }
}

} // verus!
