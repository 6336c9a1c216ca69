//! Compile-time configuration of the simulation.
//!
//! Units: lengths in micro-units (µu, one millionth of a game unit),
//! velocities in micro-units per millisecond (µu/ms), angles in
//! millidegrees, times in milliseconds.  The origin is the screen
//! centre; x grows rightward, y grows upward.

use vstd::prelude::*;

verus! {

// Screen half-extents.
pub const SCREEN_HALF_W: i64 = 320_000_000;
pub const SCREEN_HALF_H: i64 = 480_000_000;

// Player geometry.  The horizontal position is fixed for the whole
// session; only y moves.
pub const PLAYER_X: i64 = -75_000_000;
pub const PLAYER_SPAWN_Y: i64 = 0;
pub const PLAYER_HALF_W: i64 = 37_650_000;
pub const PLAYER_HALF_H: i64 = 28_240_000;

// Vertical clamp bounds for the player's position.
pub const FLOOR_BOUND: i64 = -358_000_000;
pub const CEILING_BOUND: i64 = 480_000_000;

// Kinematics.  Gravity is the per-tick change of the vertical
// velocity (negative: downward); the velocity itself is clamped into
// [VELOCITY_MIN, VELOCITY_MAX] every tick.
pub const GRAVITY_PER_TICK: i64 = -56_285;
pub const JUMP_SPEED: i64 = 637_500;
pub const VELOCITY_MIN: i64 = -1_000_000;
pub const VELOCITY_MAX: i64 = 10_000_000;

// Rotation: snap to TILT_UP while rising, otherwise fall toward
// ANGLE_MIN at ANGLE_RATE millidegrees per millisecond, clamped into
// [ANGLE_MIN, ANGLE_MAX].
pub const TILT_UP: i64 = 30_000;
pub const ANGLE_MIN: i64 = -90_000;
pub const ANGLE_MAX: i64 = 45_000;
pub const ANGLE_RATE: i64 = 180;

// Scroller.  Every scrolling entity moves left by SCROLL_SPEED per
// tick (per tick, not per elapsed time).
pub const SCROLL_SPEED: i64 = 5_737_500;

// Obstacle pairs: a fixed pool of PAIR_COUNT entities, spaced by
// PIPE_SPACING, each owning a top and a bottom blocker around a gap.
pub const PAIR_COUNT: usize = 2;
pub const PIPE_SPACING: i64 = 510_000_000;
pub const PAIR_START_X: i64 = 692_000_000;
pub const PAIR_HALF_W: i64 = 104_000_000;
pub const PAIR_DISPLACEMENT: i64 = 255_000_000;
pub const PIPE_HALF_W: i64 = 52_000_000;
pub const PIPE_HALF_H: i64 = 320_000_000;
pub const BLOCKER_OFFSET: i64 = 418_820_000;

// Randomised vertical gap offset: drawn at recycle time from
// [-GAP_AMPLITUDE, GAP_AMPLITUDE), and at reset time from the two
// symmetric ranges that exclude the central dead zone
// (-GAP_DEAD_ZONE, GAP_DEAD_ZONE).
pub const GAP_AMPLITUDE: i64 = 191_250_000;
pub const GAP_DEAD_ZONE: i64 = 95_625_000;

// Where a recycled pair reappears.
pub const PAIR_RECYCLE_X: i64 = SCREEN_HALF_W + PAIR_HALF_W + PAIR_DISPLACEMENT;

// Ground strip: GROUND_COUNT tiles covering the visible width plus one
// extra tile, wrapping by the strip length on recycle.
pub const GROUND_COUNT: usize = 3;
pub const GROUND_HALF_W: i64 = 168_000_000;
pub const GROUND_Y: i64 = -448_000_000;
pub const GROUND_BLOCKER_HALF_W: i64 = 184_800_000;
pub const GROUND_BLOCKER_HALF_H: i64 = 61_600_000;
pub const GROUND_WRAP: i64 = 2 * GROUND_HALF_W * 3;

// How long after entering GameOver a confirm input is ignored.
pub const POST_GAMEOVER_DELAY_MS: u32 = 500;

/// The configuration table as one value, for hosts that prefer to read
/// the constants through a struct.
#[derive(Clone, Copy, PartialEq, Eq, Structural, Debug)]
pub struct Config {
    pub screen_half_w: i64,
    pub screen_half_h: i64,
    pub gravity: i64,
    pub jump_speed: i64,
    pub scroll_speed: i64,
    pub pipe_spacing: i64,
    pub gap_amplitude: i64,
    pub velocity_min: i64,
    pub velocity_max: i64,
    pub post_gameover_delay_ms: u32,
}

impl Config {
    /// The fixed parameter table of this build.
    pub fn table() -> (c: Config)
        ensures
            c.screen_half_w == SCREEN_HALF_W,
            c.screen_half_h == SCREEN_HALF_H,
            c.gravity == GRAVITY_PER_TICK,
            c.jump_speed == JUMP_SPEED,
            c.scroll_speed == SCROLL_SPEED,
            c.pipe_spacing == PIPE_SPACING,
            c.gap_amplitude == GAP_AMPLITUDE,
            c.velocity_min == VELOCITY_MIN,
            c.velocity_max == VELOCITY_MAX,
            c.post_gameover_delay_ms == POST_GAMEOVER_DELAY_MS,
    {
        Config {
            screen_half_w: SCREEN_HALF_W,
            screen_half_h: SCREEN_HALF_H,
            gravity: GRAVITY_PER_TICK,
            jump_speed: JUMP_SPEED,
            scroll_speed: SCROLL_SPEED,
            pipe_spacing: PIPE_SPACING,
            gap_amplitude: GAP_AMPLITUDE,
            velocity_min: VELOCITY_MIN,
            velocity_max: VELOCITY_MAX,
            post_gameover_delay_ms: POST_GAMEOVER_DELAY_MS,
        }
    }
}

} // verus!
