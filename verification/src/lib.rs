//! Simulation core of a side-scrolling avoider game: a bird affected by
//! gravity must pass through the gaps of scrolling obstacle pairs.
//!
//! The crate covers the game logic only — vertical player kinematics,
//! the recycling obstacle/ground scroller, axis-aligned collision
//! detection, score accounting and the phase state machine.  Rendering,
//! asset loading and input-device polling are left to the host, which
//! feeds the core two edge-triggered booleans per tick and reads plain
//! positions and the score back.
//!
//! All lengths are in micro-units (one millionth of a game unit), all
//! velocities in micro-units per millisecond, and all times in
//! milliseconds, so every tick computation is exact integer arithmetic.

pub mod collision;
pub mod config;
pub mod geometry;
pub mod obstacles;
pub mod player;
mod rng;
pub mod score;
pub mod state;
pub mod world;

pub use config::Config;
pub use obstacles::{GroundTile, ObstaclePair};
pub use player::Player;
pub use score::Scoreboard;
pub use state::{GameState, PostGameOverTimer};
pub use world::World;

use vstd::prelude::*;

verus! {

/// Clamp `x` into `[lo, hi]` (mathematical model of every clamp the
/// simulation performs).
pub open spec fn clamped(x: int, lo: int, hi: int) -> int {
    if x < lo {
        lo
    } else if x > hi {
        hi
    } else {
        x
    }
}

/// Executable clamp on `i64`, used by the kinematics.
pub fn clamp_i64(x: i64, lo: i64, hi: i64) -> (r: i64)
    requires
        lo <= hi,
    ensures
        r == clamped(x as int, lo as int, hi as int),
{
    if x < lo {
        lo
    } else if x > hi {
        hi
    } else {
        x
    }
}

} // verus!
