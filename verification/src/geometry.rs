//! Axis-aligned bounding boxes and their overlap test.
//!
//! A box is given by its centre and its half-extents; rotation is
//! ignored throughout (blockers are treated as unrotated even when
//! drawn rotated — an accepted approximation of this game).

use vstd::prelude::*;

verus! {

/// Magnitude bound under which the executable overlap test is free of
/// overflow; every coordinate the simulation produces stays far below
/// it.
pub const AABB_COORD_LIMIT: i64 = 1_000_000_000_000;

/// Two axis-aligned boxes, given by centre and half-extents, overlap:
/// both axis projections overlap with nonzero length.
pub open spec fn aabb_overlap(
    ax: int, ay: int, ahw: int, ahh: int,
    bx: int, by: int, bhw: int, bhh: int,
) -> bool {
    &&& ax - ahw < bx + bhw
    &&& bx - bhw < ax + ahw
    &&& ay - ahh < by + bhh
    &&& by - bhh < ay + ahh
}

/// Executable AABB intersection test.
///
/// The result is a pure function of the eight coordinates, so equal
/// inputs always give the same answer; `lemma_nonzero_overlap_detected`
/// states that every overlap of nonzero area is reported.
pub fn aabbs_overlap(
    ax: i64, ay: i64, ahw: i64, ahh: i64,
    bx: i64, by: i64, bhw: i64, bhh: i64,
) -> (r: bool)
    requires
        -AABB_COORD_LIMIT <= ax <= AABB_COORD_LIMIT,
        -AABB_COORD_LIMIT <= ay <= AABB_COORD_LIMIT,
        0 <= ahw <= AABB_COORD_LIMIT,
        0 <= ahh <= AABB_COORD_LIMIT,
        -AABB_COORD_LIMIT <= bx <= AABB_COORD_LIMIT,
        -AABB_COORD_LIMIT <= by <= AABB_COORD_LIMIT,
        0 <= bhw <= AABB_COORD_LIMIT,
        0 <= bhh <= AABB_COORD_LIMIT,
    ensures
        r == aabb_overlap(
            ax as int, ay as int, ahw as int, ahh as int,
            bx as int, by as int, bhw as int, bhh as int,
        ),
{
    ax - ahw < bx + bhw
        && bx - bhw < ax + ahw
        && ay - ahh < by + bhh
        && by - bhh < ay + ahh
}

/// Collision reporting is deterministic: two overlap queries over
/// coordinatewise equal boxes give the same answer.
pub proof fn lemma_overlap_deterministic(
    ax1: int, ay1: int, ahw1: int, ahh1: int,
    bx1: int, by1: int, bhw1: int, bhh1: int,
    ax2: int, ay2: int, ahw2: int, ahh2: int,
    bx2: int, by2: int, bhw2: int, bhh2: int,
)
    requires
        ax1 == ax2, ay1 == ay2, ahw1 == ahw2, ahh1 == ahh2,
        bx1 == bx2, by1 == by2, bhw1 == bhw2, bhh1 == bhh2,
    ensures
        aabb_overlap(ax1, ay1, ahw1, ahh1, bx1, by1, bhw1, bhh1)
            == aabb_overlap(ax2, ay2, ahw2, ahh2, bx2, by2, bhw2, bhh2),
{
}

/// Every overlap of nonzero area is detected: if the rectangles share
/// a horizontal interval of positive width and a vertical interval of
/// positive height, the overlap test reports them.
pub proof fn lemma_nonzero_overlap_detected(
    ax: int, ay: int, ahw: int, ahh: int,
    bx: int, by: int, bhw: int, bhh: int,
    x: int, y: int,
)
    requires
        // (x, y) is interior to both rectangles, so the shared area is
        // nonzero.
        ax - ahw < x < ax + ahw,
        bx - bhw < x < bx + bhw,
        ay - ahh < y < ay + ahh,
        by - bhh < y < by + bhh,
    ensures
        aabb_overlap(ax, ay, ahw, ahh, bx, by, bhw, bhh),
{
}

} // verus!
