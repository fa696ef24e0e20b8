//! One frame of WASD keyboard state and its normalized velocity.
//!
//! The host polls the four keys once per frame and hands them over as plain
//! booleans. Opposite keys cancel; a lone axis gives a unit component; a
//! diagonal is scaled down on each axis so it is never faster than an
//! axis-aligned move.

use vstd::prelude::*;
use crate::units::VEL_DIAG;
use crate::units::VEL_UNIT;

verus! {

/// The WASD keys held during one frame: W moves up on screen, S down,
/// A left, D right.
#[derive(Clone, Copy, PartialEq, Eq, Structural, Debug)]
pub struct Input {
    pub up: bool,
    pub down: bool,
    pub left: bool,
    pub right: bool,
}

/// Horizontal key direction: right minus left, in {-1, 0, 1}.
pub open spec fn raw_dx(i: Input) -> int {
    (if i.right {
        1int
    } else {
        0int
    }) - (if i.left {
        1int
    } else {
        0int
    })
}

/// Vertical key direction: down minus up, in {-1, 0, 1}. Screen y grows
/// downward.
pub open spec fn raw_dy(i: Input) -> int {
    (if i.down {
        1int
    } else {
        0int
    }) - (if i.up {
        1int
    } else {
        0int
    })
}

/// Per-mille velocity of one axis after normalization: nothing when the axis
/// is idle, a unit when it moves alone, a diagonal component when the other
/// axis moves too.
pub open spec fn vel_component(d: int, other: int) -> int {
    if d == 0 {
        0
    } else if other == 0 {
        d * VEL_UNIT
    } else {
        d * VEL_DIAG
    }
}

/// Per-mille horizontal velocity read from the keys.
pub open spec fn vel_x(i: Input) -> int {
    vel_component(raw_dx(i), raw_dy(i))
}

/// Per-mille vertical velocity read from the keys.
pub open spec fn vel_y(i: Input) -> int {
    vel_component(raw_dy(i), raw_dx(i))
}

/// Build the normalized per-mille velocity vector from the keys held this
/// frame.
pub fn velocity_from_input(i: Input) -> (v: (i64, i64))
    ensures
        v.0 as int == vel_x(i),
        v.1 as int == vel_y(i),
        -VEL_UNIT <= v.0 <= VEL_UNIT,
        -VEL_UNIT <= v.1 <= VEL_UNIT,
{
    let mut dx: i64 = 0;
    let mut dy: i64 = 0;
    if i.up {
        dy = dy - 1;
    }
    if i.down {
        dy = dy + 1;
    }
    if i.left {
        dx = dx - 1;
    }
    if i.right {
        dx = dx + 1;
    }
    let vx: i64 = if dx == 0 {
        0
    } else if dy == 0 {
        dx * VEL_UNIT
    } else {
        dx * VEL_DIAG
    };
    let vy: i64 = if dy == 0 {
        0
    } else if dx == 0 {
        dy * VEL_UNIT
    } else {
        dy * VEL_DIAG
    };
    (vx, vy)
}

} // verus!
