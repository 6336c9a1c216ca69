//! The recycling scroller: obstacle pairs and ground tiles.
//!
//! Every tick each scrolling entity moves left by `SCROLL_SPEED`.  An
//! entity whose trailing edge has crossed the left visible boundary is
//! recycled: repositioned to the right side — once per tick, never
//! compounding — and, for an obstacle pair, given a fresh random gap
//! offset and a re-armed `countable` flag.

use vstd::prelude::*;
use crate::config::{
    GAP_AMPLITUDE, GAP_DEAD_ZONE, GROUND_COUNT, GROUND_HALF_W, GROUND_WRAP, PAIR_COUNT,
    PAIR_HALF_W, PAIR_RECYCLE_X, PAIR_START_X, PIPE_SPACING, SCREEN_HALF_W, SCROLL_SPEED,
};
use crate::rng::{sample_coin, sample_range};

verus! {

/// One obstacle pair of the fixed pool: horizontal position of the
/// gap centre, vertical gap offset, and the pending-credit flag that
/// is re-armed at recycle time and cleared when the pair is scored.
#[derive(Clone, Copy, PartialEq, Eq, Structural, Debug)]
pub struct ObstaclePair {
    pub x: i64,
    pub gap_y: i64,
    pub countable: bool,
}

/// One ground tile of the seamless repeating strip.
#[derive(Clone, Copy, PartialEq, Eq, Structural, Debug)]
pub struct GroundTile {
    pub x: i64,
}

/// Extreme abscissas an obstacle pair can hold: from just past the
/// recycle boundary up to the far end of the initial staggered layout.
pub const PAIR_X_MIN: i64 = -(SCREEN_HALF_W + PAIR_HALF_W);
pub const PAIR_X_MAX: i64 = PAIR_START_X + PIPE_SPACING;

/// Extreme abscissas of a ground tile.
pub const GROUND_X_MIN: i64 = -(SCREEN_HALF_W + GROUND_HALF_W);
pub const GROUND_X_MAX: i64 = -SCREEN_HALF_W + GROUND_HALF_W + 2 * GROUND_HALF_W * 2;

pub open spec fn pair_wf(p: ObstaclePair) -> bool {
    &&& PAIR_X_MIN <= p.x <= PAIR_X_MAX
    &&& -GAP_AMPLITUDE <= p.gap_y <= GAP_AMPLITUDE
}

pub open spec fn ground_wf(t: GroundTile) -> bool {
    GROUND_X_MIN <= t.x <= GROUND_X_MAX
}

/// The recycle condition: the trailing edge has crossed the left
/// visible boundary.
pub open spec fn pair_needs_recycle(x: int) -> bool {
    x + PAIR_HALF_W < -SCREEN_HALF_W
}

pub open spec fn ground_needs_recycle(x: int) -> bool {
    x + GROUND_HALF_W < -SCREEN_HALF_W
}

/// Whether a pair at `x` recycles during the tick (the condition is
/// tested after the scroll decrement).
pub open spec fn pair_recycles(x: int) -> bool {
    pair_needs_recycle(x - SCROLL_SPEED)
}

pub open spec fn ground_recycles(x: int) -> bool {
    ground_needs_recycle(x - SCROLL_SPEED)
}

/// A pair's abscissa after one scroller tick.
pub open spec fn pair_scrolled_x(x: int) -> int {
    if pair_recycles(x) {
        PAIR_RECYCLE_X as int
    } else {
        x - SCROLL_SPEED
    }
}

/// A ground tile's abscissa after one scroller tick: the strip wraps
/// by its fixed total width, with no randomness.
pub open spec fn ground_scrolled_x(x: int) -> int {
    if ground_recycles(x) {
        x - SCROLL_SPEED + GROUND_WRAP
    } else {
        x - SCROLL_SPEED
    }
}

/// How one scroller tick relates a pair to its successor.  Only the
/// fresh gap offset of a recycled pair is left open, bounded by the
/// amplitude; everything else is pinned.
pub open spec fn pair_step_rel(o: ObstaclePair, n: ObstaclePair) -> bool {
    &&& n.x == pair_scrolled_x(o.x as int)
    &&& if pair_recycles(o.x as int) {
        &&& n.countable == true
        &&& -GAP_AMPLITUDE <= n.gap_y < GAP_AMPLITUDE
    } else {
        &&& n.countable == o.countable
        &&& n.gap_y == o.gap_y
    }
}

/// A fresh gap offset for a recycled pair, drawn uniformly from
/// `[-GAP_AMPLITUDE, GAP_AMPLITUDE)`.
pub fn draw_recycle_offset() -> (o: i64)
    ensures
        -GAP_AMPLITUDE <= o < GAP_AMPLITUDE,
{
    sample_range(-GAP_AMPLITUDE, GAP_AMPLITUDE)
}

/// A fresh gap offset for the initial or reset layout, drawn from the
/// two symmetric ranges that exclude the central dead zone, so that a
/// minimum gap shift is guaranteed.
pub fn draw_reset_offset() -> (o: i64)
    ensures
        -GAP_AMPLITUDE <= o < GAP_AMPLITUDE,
        o >= GAP_DEAD_ZONE || o < -GAP_DEAD_ZONE,
{
    if sample_coin() {
        sample_range(GAP_DEAD_ZONE, GAP_AMPLITUDE)
    } else {
        sample_range(-GAP_AMPLITUDE, -GAP_DEAD_ZONE)
    }
}

impl ObstaclePair {
    /// One scroller tick for this pair: move left; recycle — at most
    /// once — when the trailing edge has left the visible region,
    /// re-arming the countable flag and resampling the gap offset.
    pub fn scrolled(self) -> (n: ObstaclePair)
        requires
            pair_wf(self),
        ensures
            pair_step_rel(self, n),
            pair_wf(n),
    {
        let x: i64 = self.x - SCROLL_SPEED;
        if x + PAIR_HALF_W < -SCREEN_HALF_W {
            let off = draw_recycle_offset();
            ObstaclePair { x: PAIR_RECYCLE_X, gap_y: off, countable: true }
        } else {
            ObstaclePair { x, ..self }
        }
    }
}

impl GroundTile {
    /// One scroller tick for this tile: move left; wrap by the strip
    /// width when the trailing edge has left the visible region.
    pub fn scrolled(self) -> (n: GroundTile)
        requires
            ground_wf(self),
        ensures
            n.x == ground_scrolled_x(self.x as int),
            ground_wf(n),
    {
        let x: i64 = self.x - SCROLL_SPEED;
        if x + GROUND_HALF_W < -SCREEN_HALF_W {
            GroundTile { x: x + GROUND_WRAP }
        } else {
            GroundTile { x }
        }
    }
}

/// Recycling is idempotent per tick: a pair that satisfies the recycle
/// condition after the scroll decrement is repositioned to the respawn
/// abscissa exactly once, and the respawn abscissa itself never
/// satisfies the recycle condition, so no second wrap can follow.
pub proof fn lemma_pair_recycle_idempotent(o: ObstaclePair, n: ObstaclePair)
    requires
        pair_step_rel(o, n),
        pair_recycles(o.x as int),
    ensures
        n.x == PAIR_RECYCLE_X,
        !pair_needs_recycle(n.x as int),
{
}

/// The ground counterpart: a recycled tile lands right of the recycle
/// boundary, so it cannot wrap twice in one tick.
pub proof fn lemma_ground_recycle_idempotent(t: GroundTile, n: GroundTile)
    requires
        ground_wf(t),
        ground_recycles(t.x as int),
        n.x == ground_scrolled_x(t.x as int),
    ensures
        !ground_needs_recycle(n.x as int),
{
}

/// One scroller tick over the whole pair pool, in pool order.
pub fn scroll_pairs(pairs: &mut Vec<ObstaclePair>)
    requires
        forall|j: int| 0 <= j < old(pairs)@.len() ==> pair_wf(#[trigger] old(pairs)@[j]),
    ensures
        final(pairs)@.len() == old(pairs)@.len(),
        forall|j: int| 0 <= j < old(pairs)@.len()
            ==> pair_step_rel(old(pairs)@[j], #[trigger] final(pairs)@[j]),
        forall|j: int| 0 <= j < old(pairs)@.len() ==> pair_wf(#[trigger] final(pairs)@[j]),
{
    let n = pairs.len();
    let mut i: usize = 0;
    while i < n
        invariant
            i <= n,
            n == pairs@.len(),
            n == old(pairs)@.len(),
            forall|j: int| 0 <= j < n ==> pair_wf(#[trigger] old(pairs)@[j]),
            forall|j: int| 0 <= j < i
                ==> pair_step_rel(old(pairs)@[j], #[trigger] pairs@[j]) && pair_wf(pairs@[j]),
            forall|j: int| i <= j < n ==> #[trigger] pairs@[j] == old(pairs)@[j],
        decreases n - i,
    {
        let p = pairs[i];
        pairs.set(i, p.scrolled());
        i = i + 1;
    }
}

/// One scroller tick over the whole ground strip.
pub fn scroll_ground(tiles: &mut Vec<GroundTile>)
    requires
        forall|j: int| 0 <= j < old(tiles)@.len() ==> ground_wf(#[trigger] old(tiles)@[j]),
    ensures
        final(tiles)@.len() == old(tiles)@.len(),
        forall|j: int| 0 <= j < old(tiles)@.len()
            ==> (#[trigger] final(tiles)@[j]).x == ground_scrolled_x(old(tiles)@[j].x as int),
        forall|j: int| 0 <= j < old(tiles)@.len() ==> ground_wf(#[trigger] final(tiles)@[j]),
{
    let n = tiles.len();
    let mut i: usize = 0;
    while i < n
        invariant
            i <= n,
            n == tiles@.len(),
            n == old(tiles)@.len(),
            forall|j: int| 0 <= j < n ==> ground_wf(#[trigger] old(tiles)@[j]),
            forall|j: int| 0 <= j < i
                ==> (#[trigger] tiles@[j]).x == ground_scrolled_x(old(tiles)@[j].x as int)
                    && ground_wf(tiles@[j]),
            forall|j: int| i <= j < n ==> #[trigger] tiles@[j] == old(tiles)@[j],
        decreases n - i,
    {
        let t = tiles[i];
        tiles.set(i, t.scrolled());
        i = i + 1;
    }
}

/// The initial staggered layout of the pair pool: pair `i` stands at
/// `PAIR_START_X + i * PIPE_SPACING` with its credit armed and a fresh
/// two-sided gap offset.
pub open spec fn initial_pairs_layout(s: Seq<ObstaclePair>) -> bool {
    &&& s.len() == PAIR_COUNT
    &&& forall|i: int| 0 <= i < s.len() ==> (#[trigger] s[i]).x == PAIR_START_X + i * PIPE_SPACING
    &&& forall|i: int| 0 <= i < s.len() ==> (#[trigger] s[i]).countable == true
    &&& forall|i: int| 0 <= i < s.len()
        ==> -GAP_AMPLITUDE <= (#[trigger] s[i]).gap_y < GAP_AMPLITUDE
}

/// Build the pair pool in its initial staggered layout.
pub fn initial_pairs() -> (v: Vec<ObstaclePair>)
    ensures
        initial_pairs_layout(v@),
        forall|i: int| 0 <= i < v@.len() ==> pair_wf(#[trigger] v@[i]),
        forall|i: int| 0 <= i < v@.len()
            ==> (#[trigger] v@[i]).gap_y >= GAP_DEAD_ZONE || v@[i].gap_y < -GAP_DEAD_ZONE,
{
    let mut v: Vec<ObstaclePair> = Vec::new();
    let mut i: usize = 0;
    while i < PAIR_COUNT
        invariant
            i <= PAIR_COUNT,
            v@.len() == i,
            forall|j: int| 0 <= j < i ==> (#[trigger] v@[j]).x == PAIR_START_X + j * PIPE_SPACING,
            forall|j: int| 0 <= j < i ==> (#[trigger] v@[j]).countable == true,
            forall|j: int| 0 <= j < i
                ==> -GAP_AMPLITUDE <= (#[trigger] v@[j]).gap_y < GAP_AMPLITUDE,
            forall|j: int| 0 <= j < i
                ==> (#[trigger] v@[j]).gap_y >= GAP_DEAD_ZONE || v@[j].gap_y < -GAP_DEAD_ZONE,
            forall|j: int| 0 <= j < i ==> pair_wf(#[trigger] v@[j]),
        decreases PAIR_COUNT - i,
    {
        let off = draw_reset_offset();
        v.push(ObstaclePair {
            x: PAIR_START_X + (i as i64) * PIPE_SPACING,
            gap_y: off,
            countable: true,
        });
        i = i + 1;
    }
    v
}

/// The initial ground strip: tiles laid edge to edge from the left
/// visible boundary.
pub open spec fn initial_ground_layout(s: Seq<GroundTile>) -> bool {
    &&& s.len() == GROUND_COUNT
    &&& forall|i: int| 0 <= i < s.len()
        ==> (#[trigger] s[i]).x == -SCREEN_HALF_W + GROUND_HALF_W + i * (2 * GROUND_HALF_W)
}

/// Build the ground strip in its initial seamless layout.
pub fn initial_ground() -> (v: Vec<GroundTile>)
    ensures
        initial_ground_layout(v@),
        forall|i: int| 0 <= i < v@.len() ==> ground_wf(#[trigger] v@[i]),
{
    let mut v: Vec<GroundTile> = Vec::new();
    let mut i: usize = 0;
    while i < GROUND_COUNT
        invariant
            i <= GROUND_COUNT,
            v@.len() == i,
            forall|j: int| 0 <= j < i
                ==> (#[trigger] v@[j]).x == -SCREEN_HALF_W + GROUND_HALF_W + j * (2 * GROUND_HALF_W),
            forall|j: int| 0 <= j < i ==> ground_wf(#[trigger] v@[j]),
        decreases GROUND_COUNT - i,
    {
        v.push(GroundTile { x: -SCREEN_HALF_W + GROUND_HALF_W + (i as i64) * (2 * GROUND_HALF_W) });
        i = i + 1;
    }
    v
}

} // verus!
