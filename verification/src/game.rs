//! The game state and its per-frame update.
//!
//! Each frame the host polls the keys and the frame delta and hands them to
//! [`GameState::update`]: the keys become a normalized per-mille velocity,
//! the player moves by velocity times speed times delta, and the position is
//! clamped into the debug bounds box shrunk by the player's radius.

use vstd::prelude::*;
use crate::input::Input;
use crate::input::vel_x;
use crate::input::vel_y;
use crate::input::velocity_from_input;
use crate::player::Player;
use crate::units::BOUNDS_MAX_X;
use crate::units::BOUNDS_MAX_Y;
use crate::units::BOUNDS_MIN_X;
use crate::units::BOUNDS_MIN_Y;
use crate::units::COORD_LIMIT;
use crate::units::MAX_DELTA_MS;
use crate::units::MAX_SPEED;
use crate::units::VEL_UNIT;
use crate::units::clamp_i64;
use crate::units::clamp_spec;

verus! {

/// Millipixel displacement of one axis in one frame: the per-mille velocity
/// times the speed (pixels per second) times the frame delta (milliseconds).
/// The single division by 1000 merges the per-mille velocity scale, the
/// millisecond-to-second conversion and the millipixel result, and truncates
/// toward zero.
pub open spec fn displacement(vel: int, speed: int, delta_ms: int) -> int {
    if vel >= 0 {
        (vel * speed * delta_ms) / 1000
    } else {
        -(((-vel) * speed * delta_ms) / 1000)
    }
}

/// Position of one axis after one frame: move by the displacement, then
/// clamp into `[lo, hi]`.
pub open spec fn next_pos(pos: int, vel: int, speed: int, delta_ms: int, lo: int, hi: int) -> int {
    clamp_spec(pos + displacement(vel, speed, delta_ms), lo, hi)
}

/// Millipixel displacement of one axis in one frame, as
/// [`displacement`] states it.
fn scaled_displacement(vel: i64, speed: i64, delta_ms: u64) -> (d: i64)
    requires
        -VEL_UNIT <= vel <= VEL_UNIT,
        0 <= speed <= MAX_SPEED,
        delta_ms <= MAX_DELTA_MS,
    ensures
        d as int == displacement(vel as int, speed as int, delta_ms as int),
        -(VEL_UNIT * MAX_SPEED) * (MAX_DELTA_MS as i64) <= d,
        d <= (VEL_UNIT * MAX_SPEED) * (MAX_DELTA_MS as i64),
{
    let mag: u64 = if vel >= 0 {
        vel as u64
    } else {
        (-vel) as u64
    };
    let speed_u: u64 = speed as u64;
    proof {
        assert(mag * speed_u <= 1000 * 100_000) by (nonlinear_arith)
            requires
                mag <= 1000,
                speed_u <= 100_000,
        ;
    }
    let a: u64 = mag * speed_u;
    proof {
        assert(a * delta_ms <= 100_000_000 * 1_000_000) by (nonlinear_arith)
            requires
                a <= 100_000_000,
                delta_ms <= 1_000_000,
        ;
    }
    let b: u64 = a * delta_ms;
    let scaled: u64 = b / 1000;
    proof {
        assert(scaled <= b) by (nonlinear_arith)
            requires
                scaled == b / 1000,
                b >= 0,
        ;
    }
    if vel >= 0 {
        scaled as i64
    } else {
        -(scaled as i64)
    }
}

/// One frame of input: the polled keys and the frame delta in milliseconds.
#[derive(Clone, Copy, Debug)]
pub struct Frame {
    /// The WASD keys held during the frame.
    pub input: Input,
    /// The frame delta, milliseconds.
    pub delta_ms: u64,
}

/// Player center after one frame, on both axes, as a pair of millipixel
/// coordinates.
pub open spec fn step_pos(pos: (int, int), f: Frame, speed: int, radius: int) -> (int, int) {
    (
        next_pos(
            pos.0,
            vel_x(f.input),
            speed,
            f.delta_ms as int,
            BOUNDS_MIN_X + radius,
            BOUNDS_MAX_X - radius,
        ),
        next_pos(
            pos.1,
            vel_y(f.input),
            speed,
            f.delta_ms as int,
            BOUNDS_MIN_Y + radius,
            BOUNDS_MAX_Y - radius,
        ),
    )
}

/// Player center after a whole sequence of frames, applied first to last.
pub open spec fn run_frames(pos: (int, int), frames: Seq<Frame>, speed: int, radius: int) -> (
    int,
    int,
)
    decreases frames.len(),
{
    if frames.len() == 0 {
        pos
    } else {
        run_frames(
            step_pos(pos, frames[0], speed, radius),
            frames.subrange(1, frames.len() as int),
            speed,
            radius,
        )
    }
}

/// The player center lies inside the debug bounds box shrunk by the radius.
pub open spec fn pos_in_bounds(pos: (int, int), radius: int) -> bool {
    &&& BOUNDS_MIN_X + radius <= pos.0 <= BOUNDS_MAX_X - radius
    &&& BOUNDS_MIN_Y + radius <= pos.1 <= BOUNDS_MAX_Y - radius
}

/// A radius the bounds box can hold: the shrunk box is non-empty.
pub open spec fn radius_fits(radius: int) -> bool {
    &&& 0 <= radius
    &&& BOUNDS_MIN_X + radius <= BOUNDS_MAX_X - radius
    &&& BOUNDS_MIN_Y + radius <= BOUNDS_MAX_Y - radius
}

/// After one frame the player center lies inside the bounds box shrunk by
/// the radius, whatever the starting position, the keys and the delta.
pub proof fn lemma_step_in_bounds(pos: (int, int), f: Frame, speed: int, radius: int)
    requires
        radius_fits(radius),
    ensures
        pos_in_bounds(step_pos(pos, f, speed, radius), radius),
{
}

/// After any sequence of input frames the player center stays inside the
/// bounds box shrunk by the radius: one frame is enough to put it there, and
/// a center already inside remains inside under every further frame.
pub proof fn lemma_position_stays_in_bounds(
    pos: (int, int),
    frames: Seq<Frame>,
    speed: int,
    radius: int,
)
    requires
        radius_fits(radius),
        frames.len() >= 1 || pos_in_bounds(pos, radius),
    ensures
        pos_in_bounds(run_frames(pos, frames, speed, radius), radius),
    decreases frames.len(),
{
    if frames.len() == 0 {
    } else {
        lemma_step_in_bounds(pos, frames[0], speed, radius);
        lemma_position_stays_in_bounds(
            step_pos(pos, frames[0], speed, radius),
            frames.subrange(1, frames.len() as int),
            speed,
            radius,
        );
    }
}

/// The whole game state: the one player entity.
#[derive(Clone, Copy, Debug)]
pub struct GameState {
    /// The controllable entity.
    pub player: Player,
}

impl GameState {
    /// Well-formedness of the state: the player is well-formed.
    pub open spec fn wf(self) -> bool {
        self.player.wf()
    }

    /// A new game: the player starts at the world origin, where the camera
    /// will place it at the screen center.
    pub fn new() -> (s: GameState)
        ensures
            s.player.pos_x == 0,
            s.player.pos_y == 0,
            s.player.vel_x == 0,
            s.player.vel_y == 0,
            s.player.speed == crate::player::PLAYER_SPEED,
            s.player.hp == crate::player::PLAYER_HP,
            s.player.max_hp == crate::player::PLAYER_HP,
            s.player.radius == crate::player::PLAYER_RADIUS,
            s.player.last_shot_ms == 0,
            s.wf(),
            s.player.in_bounds(),
    {
        GameState { player: Player::new(0, 0) }
    }

    /// One frame: read the keys into a normalized velocity, move the player
    /// by velocity times speed times delta, and clamp the position into the
    /// bounds box shrunk by the radius. Everything else about the player is
    /// kept as it was.
    pub fn update(&mut self, input: Input, delta_ms: u64)
        requires
            old(self).wf(),
            delta_ms <= MAX_DELTA_MS,
        ensures
            final(self).wf(),
            final(self).player.in_bounds(),
            final(self).player.vel_x as int == vel_x(input),
            final(self).player.vel_y as int == vel_y(input),
            final(self).player.pos_x as int == next_pos(
                old(self).player.pos_x as int,
                vel_x(input),
                old(self).player.speed as int,
                delta_ms as int,
                BOUNDS_MIN_X + old(self).player.radius,
                BOUNDS_MAX_X - old(self).player.radius,
            ),
            final(self).player.pos_y as int == next_pos(
                old(self).player.pos_y as int,
                vel_y(input),
                old(self).player.speed as int,
                delta_ms as int,
                BOUNDS_MIN_Y + old(self).player.radius,
                BOUNDS_MAX_Y - old(self).player.radius,
            ),
            final(self).player.speed == old(self).player.speed,
            final(self).player.hp == old(self).player.hp,
            final(self).player.max_hp == old(self).player.max_hp,
            final(self).player.radius == old(self).player.radius,
            final(self).player.last_shot_ms == old(self).player.last_shot_ms,
    {
        let (vx, vy) = velocity_from_input(input);
        self.player.vel_x = vx;
        self.player.vel_y = vy;
        let dx: i64 = scaled_displacement(vx, self.player.speed, delta_ms);
        let dy: i64 = scaled_displacement(vy, self.player.speed, delta_ms);
        self.player.pos_x = clamp_i64(
            self.player.pos_x + dx,
            BOUNDS_MIN_X + self.player.radius,
            BOUNDS_MAX_X - self.player.radius,
        );
        self.player.pos_y = clamp_i64(
            self.player.pos_y + dy,
            BOUNDS_MIN_Y + self.player.radius,
            BOUNDS_MAX_Y - self.player.radius,
        );
    }
}

} // verus!
