//! The single controllable entity.
//!
//! Coordinates, radius and velocity are fixed-point integers: positions and
//! the radius in millipixels, velocities per-mille of a unit vector. The
//! speed is in pixels per second and the shot cooldown in milliseconds.
//! Health and cooldown fields are carried for later work and not yet read.

use vstd::prelude::*;
use crate::units::BOUNDS_MAX_X;
use crate::units::BOUNDS_MAX_Y;
use crate::units::BOUNDS_MIN_X;
use crate::units::BOUNDS_MIN_Y;
use crate::units::COORD_LIMIT;
use crate::units::MAX_SPEED;
use crate::units::VEL_UNIT;

verus! {

/// Movement speed of a fresh player, in pixels per second.
pub const PLAYER_SPEED: i64 = 300;

/// Health of a fresh player.
pub const PLAYER_HP: i32 = 100;

/// Collision radius of a fresh player, in millipixels (16 pixels).
pub const PLAYER_RADIUS: i64 = 16_000;

/// The player entity.
#[derive(Clone, Copy, Debug)]
pub struct Player {
    /// World position, millipixels.
    pub pos_x: i64,
    /// World position, millipixels.
    pub pos_y: i64,
    /// Current velocity, per-mille of a unit vector.
    pub vel_x: i64,
    /// Current velocity, per-mille of a unit vector.
    pub vel_y: i64,
    /// Movement speed, pixels per second.
    pub speed: i64,
    /// Current health.
    pub hp: i32,
    /// Maximum health.
    pub max_hp: i32,
    /// Collision radius, millipixels.
    pub radius: i64,
    /// Cooldown tracking, milliseconds since start.
    pub last_shot_ms: u64,
}

impl Player {
    /// Well-formedness: the circle fits inside the bounds box, the speed and
    /// velocity are within their supported ranges, and the position is within
    /// the coordinate limit, so one frame of arithmetic cannot overflow.
    pub open spec fn wf(self) -> bool {
        &&& 0 <= self.radius
        &&& BOUNDS_MIN_X + self.radius <= BOUNDS_MAX_X - self.radius
        &&& BOUNDS_MIN_Y + self.radius <= BOUNDS_MAX_Y - self.radius
        &&& 0 <= self.speed <= MAX_SPEED
        &&& -VEL_UNIT <= self.vel_x <= VEL_UNIT
        &&& -VEL_UNIT <= self.vel_y <= VEL_UNIT
        &&& -COORD_LIMIT <= self.pos_x <= COORD_LIMIT
        &&& -COORD_LIMIT <= self.pos_y <= COORD_LIMIT
    }

    /// The whole circle lies inside the debug bounds box: the center stays
    /// in the box shrunk by the radius on each side.
    pub open spec fn in_bounds(self) -> bool {
        &&& BOUNDS_MIN_X + self.radius <= self.pos_x <= BOUNDS_MAX_X - self.radius
        &&& BOUNDS_MIN_Y + self.radius <= self.pos_y <= BOUNDS_MAX_Y - self.radius
    }

    /// A fresh player at the given world position, at rest, with full health
    /// and the default speed and radius.
    pub fn new(x: i64, y: i64) -> (p: Player)
        requires
            -COORD_LIMIT <= x <= COORD_LIMIT,
            -COORD_LIMIT <= y <= COORD_LIMIT,
        ensures
            p.pos_x == x,
            p.pos_y == y,
            p.vel_x == 0,
            p.vel_y == 0,
            p.speed == PLAYER_SPEED,
            p.hp == PLAYER_HP,
            p.max_hp == PLAYER_HP,
            p.radius == PLAYER_RADIUS,
            p.last_shot_ms == 0,
            p.wf(),
    {
        Player {
            pos_x: x,
            pos_y: y,
            vel_x: 0,
            vel_y: 0,
            speed: PLAYER_SPEED,
            hp: PLAYER_HP,
            max_hp: PLAYER_HP,
            radius: PLAYER_RADIUS,
            last_shot_ms: 0,
        }
    }
}

} // verus!
