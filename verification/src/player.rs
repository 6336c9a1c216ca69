//! Vertical kinematics of the player.
//!
//! Each Running tick the velocity changes by gravity (or is set to the
//! jump speed when the activate signal fired), the vertical position
//! integrates the new velocity over the elapsed time, and the rotation
//! angle snaps up while rising or falls at a fixed angular rate.  All
//! three are clamped, which absorbs every numeric edge case: no input
//! is rejected.

use vstd::prelude::*;
use crate::clamped;
use crate::clamp_i64;
use crate::config::{
    ANGLE_MAX, ANGLE_MIN, ANGLE_RATE, CEILING_BOUND, FLOOR_BOUND, GRAVITY_PER_TICK, JUMP_SPEED,
    PLAYER_SPAWN_Y, TILT_UP, VELOCITY_MAX, VELOCITY_MIN,
};

verus! {

/// The single player entity: vertical position (micro-units), vertical
/// velocity (micro-units per millisecond) and rotation angle
/// (millidegrees).  The horizontal position is the fixed `PLAYER_X`.
#[derive(Clone, Copy, PartialEq, Eq, Structural, Debug)]
pub struct Player {
    pub y: i64,
    pub velocity: i64,
    pub angle: i64,
}

/// Well-formedness: every field sits inside its clamp bounds.
pub open spec fn player_wf(p: Player) -> bool {
    &&& FLOOR_BOUND <= p.y <= CEILING_BOUND
    &&& VELOCITY_MIN <= p.velocity <= VELOCITY_MAX
    &&& ANGLE_MIN <= p.angle <= ANGLE_MAX
}

/// The velocity after one tick: the jump speed if the activate signal
/// fired (overriding the gravity integration of that tick), otherwise
/// the old velocity plus gravity, clamped.
pub open spec fn vel_after(v: int, activate: bool) -> int {
    if activate {
        JUMP_SPEED as int
    } else {
        clamped(v + GRAVITY_PER_TICK, VELOCITY_MIN as int, VELOCITY_MAX as int)
    }
}

/// The vertical position after integrating velocity `v` over `dt`
/// milliseconds, clamped between floor and ceiling.
pub open spec fn y_after(y: int, v: int, dt: int) -> int {
    clamped(y + v * dt, FLOOR_BOUND as int, CEILING_BOUND as int)
}

/// The rotation angle after one tick: snapped to the fixed tilt while
/// rising, otherwise interpolated toward the lower limit at the fixed
/// angular rate.
pub open spec fn angle_after(a: int, v: int, dt: int) -> int {
    if v > 0 {
        TILT_UP as int
    } else {
        clamped(a - ANGLE_RATE * dt, ANGLE_MIN as int, ANGLE_MAX as int)
    }
}

impl Player {
    /// A freshly spawned player: at the spawn point, at rest, level.
    pub fn spawn() -> (p: Player)
        ensures
            p.y == PLAYER_SPAWN_Y,
            p.velocity == 0,
            p.angle == 0,
            player_wf(p),
    {
        Player { y: PLAYER_SPAWN_Y, velocity: 0, angle: 0 }
    }

    /// One kinematics tick over `dt` milliseconds.  `activate` is the
    /// edge-triggered jump signal observed this tick.
    ///
    /// The velocity stays in `[VELOCITY_MIN, VELOCITY_MAX]` and the
    /// position in `[FLOOR_BOUND, CEILING_BOUND]` after every tick.
    pub fn kinematics_tick(&mut self, dt: u32, activate: bool)
        requires
            player_wf(*old(self)),
        ensures
            final(self).velocity == vel_after(old(self).velocity as int, activate),
            final(self).y == y_after(old(self).y as int, final(self).velocity as int, dt as int),
            final(self).angle
                == angle_after(old(self).angle as int, final(self).velocity as int, dt as int),
            player_wf(*final(self)),
            VELOCITY_MIN <= final(self).velocity <= VELOCITY_MAX,
            FLOOR_BOUND <= final(self).y <= CEILING_BOUND,
    {
        let d: i64 = dt as i64;

        let v: i64 = if activate {
            JUMP_SPEED
        } else {
            clamp_i64(self.velocity + GRAVITY_PER_TICK, VELOCITY_MIN, VELOCITY_MAX)
        };

        proof {
            assert(VELOCITY_MIN * d <= v * d <= VELOCITY_MAX * d) by (nonlinear_arith)
                requires
                    VELOCITY_MIN <= v <= VELOCITY_MAX,
                    0 <= d,
            ;
        }
        let y: i64 = clamp_i64(self.y + v * d, FLOOR_BOUND, CEILING_BOUND);

        let angle: i64 = if v > 0 {
            TILT_UP
        } else {
            clamp_i64(self.angle - ANGLE_RATE * d, ANGLE_MIN, ANGLE_MAX)
        };

        self.velocity = v;
        self.y = y;
        self.angle = angle;
    }
}

} // verus!
