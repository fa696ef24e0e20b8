//! Fixed-point units, the debug-bounds box, and clamping.
//!
//! Every coordinate the core handles is an `i64` in millipixels: 1000
//! sub-units per pixel. Velocities are per-mille fractions of a unit vector,
//! speeds are in pixels per second, and frame deltas in milliseconds.

use vstd::prelude::*;

verus! {

/// Per-mille length of an axis-aligned unit velocity component.
pub const VEL_UNIT: i64 = 1000;

/// Per-mille length of each component of a diagonal velocity: the largest
/// integer at most 1000 / sqrt(2), so a diagonal velocity is never longer
/// than an axis-aligned one.
pub const VEL_DIAG: i64 = 707;

/// Left edge of the debug bounds box: 600x400 pixels centered at the world
/// origin, in millipixels.
pub const BOUNDS_MIN_X: i64 = -300_000;

/// Right edge of the debug bounds box, in millipixels.
pub const BOUNDS_MAX_X: i64 = 300_000;

/// Top edge of the debug bounds box, in millipixels.
pub const BOUNDS_MIN_Y: i64 = -200_000;

/// Bottom edge of the debug bounds box, in millipixels.
pub const BOUNDS_MAX_Y: i64 = 200_000;

/// Horizontal half-size of an isometric tile, in pixels (a scale-free
/// multiplier on millipixel coordinates).
pub const TILE_WIDTH_HALF: i64 = 16;

/// Vertical half-size of an isometric tile, in pixels.
pub const TILE_HEIGHT_HALF: i64 = 8;

/// Screen center of the 800x600 window, in millipixels.
pub const SCREEN_CENTER_X: i64 = 400_000;

/// Screen center of the 800x600 window, in millipixels.
pub const SCREEN_CENTER_Y: i64 = 300_000;

/// Largest coordinate magnitude the core handles; keeps every intermediate
/// product within an `i64`.
pub const COORD_LIMIT: i64 = 1_000_000_000_000;

/// Longest frame delta one update step accepts, in milliseconds; keeps the
/// displacement arithmetic within an `i64`.
pub const MAX_DELTA_MS: u64 = 1_000_000;

/// Fastest speed one update step accepts, in pixels per second.
pub const MAX_SPEED: i64 = 100_000;

/// `v` clamped to the closed interval `[lo, hi]`.
pub open spec fn clamp_spec(v: int, lo: int, hi: int) -> int {
    if v < lo {
        lo
    } else if v > hi {
        hi
    } else {
        v
    }
}

/// Clamp `v` to `[lo, hi]`.
pub fn clamp_i64(v: i64, lo: i64, hi: i64) -> (r: i64)
    requires
        lo <= hi,
    ensures
        r as int == clamp_spec(v as int, lo as int, hi as int),
        lo <= r <= hi,
{
    if v < lo {
        lo
    } else if v > hi {
        hi
    } else {
        v
    }
}

} // verus!
