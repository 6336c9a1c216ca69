//! Score accounting: one point per obstacle pair that passes the
//! player's fixed horizontal position, exactly once per pass.
//!
//! A pair is credited when its pending-credit flag is armed and its
//! position has fallen behind the player; crediting clears the flag,
//! and only a recycle re-arms it, so each pass credits at most once.

use vstd::prelude::*;
use crate::config::PLAYER_X;
use crate::obstacles::{pair_recycles, pair_step_rel, ObstaclePair};

verus! {

/// The score counter.  It is mutated only here (increment) and by the
/// reset (back to zero).
#[derive(Clone, Copy, PartialEq, Eq, Structural, Debug)]
pub struct Scoreboard {
    pub score: usize,
}

/// A pair at `x` has passed the player's fixed horizontal position.
pub open spec fn pair_passed(x: int) -> bool {
    x < PLAYER_X
}

/// The pair is owed a credit this tick.
pub open spec fn pair_credited(p: ObstaclePair) -> bool {
    p.countable && pair_passed(p.x as int)
}

/// What the scoring step leaves of one pair: the position is
/// untouched and the pending-credit flag is cleared exactly when the
/// pair is credited.
pub open spec fn scored_pair(p: ObstaclePair) -> ObstaclePair {
    ObstaclePair { countable: p.countable && !pair_passed(p.x as int), ..p }
}

/// How many pairs of the pool are credited this tick.
pub open spec fn credited_count(s: Seq<ObstaclePair>) -> nat
    decreases s.len(),
{
    if s.len() == 0 {
        0
    } else {
        credited_count(s.drop_last()) + if pair_credited(s.last()) {
            1nat
        } else {
            0nat
        }
    }
}

/// Addition into the score counter saturates at the counter's top;
/// every reachable score is far below it.
pub open spec fn saturated(n: int) -> int {
    if n > usize::MAX {
        usize::MAX as int
    } else {
        n
    }
}

/// One scoring tick: walk the pool in order, credit every armed pair
/// that has passed the player, clearing its flag as it is credited.
pub fn score_tick(pairs: &mut Vec<ObstaclePair>, board: &mut Scoreboard)
    ensures
        final(pairs)@.len() == old(pairs)@.len(),
        forall|j: int| 0 <= j < old(pairs)@.len()
            ==> #[trigger] final(pairs)@[j] == scored_pair(old(pairs)@[j]),
        final(board).score == saturated(old(board).score + credited_count(old(pairs)@)),
{
    let n = pairs.len();
    let mut i: usize = 0;
    while i < n
        invariant
            i <= n,
            n == pairs@.len(),
            n == old(pairs)@.len(),
            forall|j: int| 0 <= j < i ==> #[trigger] pairs@[j] == scored_pair(old(pairs)@[j]),
            forall|j: int| i <= j < n ==> #[trigger] pairs@[j] == old(pairs)@[j],
            board.score == saturated(
                old(board).score + credited_count(old(pairs)@.take(i as int)),
            ),
        decreases n - i,
    {
        let p = pairs[i];
        if p.countable && p.x < PLAYER_X {
            pairs.set(i, ObstaclePair { countable: false, ..p });
            if board.score < usize::MAX {
                board.score = board.score + 1;
            }
        }
        proof {
            let s = old(pairs)@;
            assert(s.take(i + 1).drop_last() =~= s.take(i as int));
            assert(s.take(i + 1).last() == s[i as int]);
        }
        i = i + 1;
    }
    proof {
        assert(old(pairs)@.take(n as int) =~= old(pairs)@);
    }
}

/// Exactly-once crediting, step by step: the scoring step clears the
/// flag precisely when it credits; a pair it has scored is never
/// credited again (scoring is idempotent); and only a recycle re-arms
/// a cleared flag — a scroller tick without a recycle keeps it false.
/// So between two consecutive recycles the flag falls from true to
/// false at most once.
pub proof fn lemma_credit_exactly_once(p: ObstaclePair, o: ObstaclePair, n: ObstaclePair)
    requires
        pair_step_rel(o, n),
        !pair_recycles(o.x as int),
    ensures
        scored_pair(p).countable == (p.countable && !pair_credited(p)),
        !pair_credited(scored_pair(p)),
        scored_pair(scored_pair(p)) == scored_pair(p),
        !o.countable ==> !n.countable,
{
}

} // verus!
