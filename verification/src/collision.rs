//! Collision detection between the player and every active blocker.
//!
//! Each obstacle pair owns a top and a bottom blocker rectangle around
//! its gap; each ground tile is a blocker as well.  All boxes are
//! axis-aligned and unrotated; the test walks the pool in order —
//! pairs first, top before bottom, then ground tiles — and stops at
//! the first overlap.

use vstd::prelude::*;
use crate::config::{
    BLOCKER_OFFSET, GROUND_BLOCKER_HALF_H, GROUND_BLOCKER_HALF_W, GROUND_Y, PIPE_HALF_H,
    PIPE_HALF_W, PLAYER_HALF_H, PLAYER_HALF_W, PLAYER_X,
};
use crate::geometry::{aabb_overlap, aabbs_overlap};
use crate::obstacles::{ground_wf, pair_wf, GroundTile, ObstaclePair};
use crate::player::{player_wf, Player};

verus! {

/// The player's box overlaps the top blocker of a pair.
pub open spec fn hits_top_blocker(py: int, p: ObstaclePair) -> bool {
    aabb_overlap(
        PLAYER_X as int, py, PLAYER_HALF_W as int, PLAYER_HALF_H as int,
        p.x as int, p.gap_y + BLOCKER_OFFSET, PIPE_HALF_W as int, PIPE_HALF_H as int,
    )
}

/// The player's box overlaps the bottom blocker of a pair.
pub open spec fn hits_bottom_blocker(py: int, p: ObstaclePair) -> bool {
    aabb_overlap(
        PLAYER_X as int, py, PLAYER_HALF_W as int, PLAYER_HALF_H as int,
        p.x as int, p.gap_y - BLOCKER_OFFSET, PIPE_HALF_W as int, PIPE_HALF_H as int,
    )
}

pub open spec fn hits_pair(py: int, p: ObstaclePair) -> bool {
    hits_top_blocker(py, p) || hits_bottom_blocker(py, p)
}

/// The player's box overlaps a ground tile's blocker.
pub open spec fn hits_ground_tile(py: int, t: GroundTile) -> bool {
    aabb_overlap(
        PLAYER_X as int, py, PLAYER_HALF_W as int, PLAYER_HALF_H as int,
        t.x as int, GROUND_Y as int, GROUND_BLOCKER_HALF_W as int, GROUND_BLOCKER_HALF_H as int,
    )
}

/// Whether the player collides with any active blocker.  A pure
/// function of the positions: identical inputs always give the same
/// report.
pub open spec fn collision(p: Player, pairs: Seq<ObstaclePair>, ground: Seq<GroundTile>) -> bool {
    ||| exists|i: int| 0 <= i < pairs.len() && hits_pair(p.y as int, #[trigger] pairs[i])
    ||| exists|i: int| 0 <= i < ground.len() && hits_ground_tile(p.y as int, #[trigger] ground[i])
}

/// Test the player against every blocker, in pool order, stopping at
/// the first overlap found.
pub fn detect_collision(
    player: &Player,
    pairs: &Vec<ObstaclePair>,
    ground: &Vec<GroundTile>,
) -> (hit: bool)
    requires
        player_wf(*player),
        forall|j: int| 0 <= j < pairs@.len() ==> pair_wf(#[trigger] pairs@[j]),
        forall|j: int| 0 <= j < ground@.len() ==> ground_wf(#[trigger] ground@[j]),
    ensures
        hit == collision(*player, pairs@, ground@),
{
    let np = pairs.len();
    let mut i: usize = 0;
    while i < np
        invariant
            i <= np,
            np == pairs@.len(),
            player_wf(*player),
            forall|j: int| 0 <= j < np ==> pair_wf(#[trigger] pairs@[j]),
            forall|j: int| 0 <= j < i ==> !hits_pair(player.y as int, #[trigger] pairs@[j]),
        decreases np - i,
    {
        let p = pairs[i];
        let top = aabbs_overlap(
            PLAYER_X, player.y, PLAYER_HALF_W, PLAYER_HALF_H,
            p.x, p.gap_y + BLOCKER_OFFSET, PIPE_HALF_W, PIPE_HALF_H,
        );
        if top {
            return true;
        }
        let bottom = aabbs_overlap(
            PLAYER_X, player.y, PLAYER_HALF_W, PLAYER_HALF_H,
            p.x, p.gap_y - BLOCKER_OFFSET, PIPE_HALF_W, PIPE_HALF_H,
        );
        if bottom {
            return true;
        }
        i = i + 1;
    }

    let ng = ground.len();
    let mut k: usize = 0;
    while k < ng
        invariant
            k <= ng,
            ng == ground@.len(),
            player_wf(*player),
            forall|j: int| 0 <= j < pairs@.len()
                ==> !hits_pair(player.y as int, #[trigger] pairs@[j]),
            forall|j: int| 0 <= j < ground@.len() ==> ground_wf(#[trigger] ground@[j]),
            forall|j: int| 0 <= j < k ==> !hits_ground_tile(player.y as int, #[trigger] ground@[j]),
        decreases ng - k,
    {
        let t = ground[k];
        let g = aabbs_overlap(
            PLAYER_X, player.y, PLAYER_HALF_W, PLAYER_HALF_H,
            t.x, GROUND_Y, GROUND_BLOCKER_HALF_W, GROUND_BLOCKER_HALF_H,
        );
        if g {
            return true;
        }
        k = k + 1;
    }

    false
}

} // verus!
