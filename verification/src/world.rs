//! The simulation world and its tick entry point.
//!
//! One `update` per host frame: while Running the player integrates,
//! every scrolling entity advances and may recycle, collisions are
//! detected, passes are scored, and a collision ends the round; while
//! Paused only the ground animates until an input starts the round;
//! in GameOver the ground keeps scrolling and a confirm input — once
//! the countdown has elapsed — returns to Paused through a full reset
//! of score, player pose and obstacle layout.

use vstd::prelude::*;
use crate::collision::{collision, detect_collision};
use crate::config::{
    GAP_AMPLITUDE, PAIR_RECYCLE_X, PLAYER_SPAWN_Y, POST_GAMEOVER_DELAY_MS, SCROLL_SPEED,
};
use crate::obstacles::{
    ground_scrolled_x, ground_wf, initial_ground, initial_ground_layout, initial_pairs,
    initial_pairs_layout, pair_recycles, pair_scrolled_x, pair_step_rel, pair_wf, scroll_ground,
    scroll_pairs, GroundTile, ObstaclePair,
};
use crate::player::{angle_after, player_wf, vel_after, y_after, Player};
use crate::score::{
    credited_count, pair_credited, pair_passed, saturated, score_tick, scored_pair, Scoreboard,
};
use crate::state::{timer_after, try_transition, GameState, PostGameOverTimer};

verus! {

/// The whole simulation state: the entity store of the core.
pub struct World {
    pub phase: GameState,
    pub player: Player,
    pub pairs: Vec<ObstaclePair>,
    pub ground: Vec<GroundTile>,
    pub scoreboard: Scoreboard,
    pub timer: PostGameOverTimer,
}

/// Structural invariant of the world: fixed pool sizes and every
/// entity inside its bounds.
pub open spec fn world_wf(w: World) -> bool {
    &&& player_wf(w.player)
    &&& w.pairs@.len() == crate::config::PAIR_COUNT
    &&& forall|i: int| 0 <= i < w.pairs@.len() ==> pair_wf(#[trigger] w.pairs@[i])
    &&& w.ground@.len() == crate::config::GROUND_COUNT
    &&& forall|i: int| 0 <= i < w.ground@.len() ==> ground_wf(#[trigger] w.ground@[i])
}

/// What one Running tick makes of one obstacle pair: the scroll (with
/// its possible recycle) followed by the scoring step.  Everything is
/// pinned except the fresh gap offset of a recycled pair.
pub open spec fn pair_tick_rel(o: ObstaclePair, n: ObstaclePair) -> bool {
    &&& n.x == pair_scrolled_x(o.x as int)
    &&& if pair_recycles(o.x as int) {
        &&& n.countable == true
        &&& -GAP_AMPLITUDE <= n.gap_y < GAP_AMPLITUDE
    } else {
        &&& n.gap_y == o.gap_y
        &&& n.countable == (o.countable && !pair_passed(o.x - SCROLL_SPEED))
    }
}

/// The credit one pair yields during one Running tick: a pair is
/// credited when it is armed and the scroll has just put it behind the
/// player; a recycled pair reappears on the right and yields nothing.
pub open spec fn pair_tick_credit(o: ObstaclePair) -> nat {
    if !pair_recycles(o.x as int) && o.countable && pair_passed(o.x - SCROLL_SPEED) {
        1nat
    } else {
        0nat
    }
}

/// Total score credited during one Running tick.
pub open spec fn tick_credits(s: Seq<ObstaclePair>) -> nat
    decreases s.len(),
{
    if s.len() == 0 {
        0
    } else {
        tick_credits(s.drop_last()) + pair_tick_credit(s.last())
    }
}

/// The credits the scoring step finds in the scrolled pool equal the
/// per-tick credits read off the pool before the scroll.
proof fn lemma_tick_credits(o: Seq<ObstaclePair>, m: Seq<ObstaclePair>)
    requires
        o.len() == m.len(),
        forall|i: int| 0 <= i < o.len() ==> pair_step_rel(#[trigger] o[i], m[i]),
    ensures
        credited_count(m) == tick_credits(o),
    decreases o.len(),
{
    if o.len() > 0 {
        assert forall|i: int| 0 <= i < o.len() - 1 implies pair_step_rel(
            #[trigger] o.drop_last()[i],
            m.drop_last()[i],
        ) by {
            assert(o.drop_last()[i] == o[i]);
            assert(m.drop_last()[i] == m[i]);
        }
        lemma_tick_credits(o.drop_last(), m.drop_last());
        assert(pair_step_rel(o[o.len() - 1], m[m.len() - 1]));
    }
}

/// Between two consecutive recycles a pair's pending-credit flag only
/// falls, and it falls at most once: over a Running tick without a
/// recycle, a cleared flag stays cleared, and an armed flag is cleared
/// exactly on the tick that puts the pair behind the player — the tick
/// that credits the score.
pub proof fn lemma_flag_falls_at_most_once(o: ObstaclePair, n: ObstaclePair)
    requires
        pair_tick_rel(o, n),
        !pair_recycles(o.x as int),
    ensures
        !o.countable ==> !n.countable,
        (o.countable && !n.countable) <==> pair_tick_credit(o) == 1,
{
}

/// How one Running tick relates the old world to the new one.  The
/// only parts left open are the fresh gap offsets of recycled pairs,
/// each bounded by the amplitude.
pub open spec fn running_tick_rel(w: World, v: World, dt: u32, activate: bool) -> bool {
    &&& v.player.velocity == vel_after(w.player.velocity as int, activate)
    &&& v.player.y == y_after(w.player.y as int, v.player.velocity as int, dt as int)
    &&& v.player.angle == angle_after(w.player.angle as int, v.player.velocity as int, dt as int)
    &&& v.pairs@.len() == w.pairs@.len()
    &&& forall|i: int| 0 <= i < w.pairs@.len() ==> pair_tick_rel(#[trigger] w.pairs@[i], v.pairs@[i])
    &&& v.ground@.len() == w.ground@.len()
    &&& forall|i: int| 0 <= i < w.ground@.len()
        ==> (#[trigger] v.ground@[i]).x == ground_scrolled_x(w.ground@[i].x as int)
    &&& v.scoreboard.score == saturated(w.scoreboard.score + tick_credits(w.pairs@))
    &&& {
        let hit = collision(v.player, v.pairs@, v.ground@);
        &&& v.phase == (if hit {
            GameState::GameOver
        } else {
            GameState::Running
        })
        &&& v.timer.remaining_ms == (if hit {
            POST_GAMEOVER_DELAY_MS as int
        } else {
            w.timer.remaining_ms as int
        })
    }
}

/// A Paused tick without an input: only the ground animates.
pub open spec fn paused_idle_rel(w: World, v: World) -> bool {
    &&& v.phase == GameState::Paused
    &&& v.player == w.player
    &&& v.pairs@ == w.pairs@
    &&& v.scoreboard == w.scoreboard
    &&& v.timer == w.timer
    &&& v.ground@.len() == w.ground@.len()
    &&& forall|i: int| 0 <= i < w.ground@.len()
        ==> (#[trigger] v.ground@[i]).x == ground_scrolled_x(w.ground@[i].x as int)
}

/// A GameOver tick: the ground keeps scrolling and the countdown
/// advances; a confirm input once the countdown has elapsed returns
/// to Paused through a full reset — score to zero, player to its
/// spawn pose, pairs to the initial staggered layout.  Player and
/// obstacles never move in this phase.
pub open spec fn gameover_tick_rel(w: World, v: World, dt: u32, confirm: bool) -> bool {
    let rem = timer_after(w.timer.remaining_ms as int, dt as int);
    &&& v.timer.remaining_ms == rem
    &&& v.ground@.len() == w.ground@.len()
    &&& forall|i: int| 0 <= i < w.ground@.len()
        ==> (#[trigger] v.ground@[i]).x == ground_scrolled_x(w.ground@[i].x as int)
    &&& if confirm && rem == 0 {
        &&& v.phase == GameState::Paused
        &&& v.scoreboard.score == 0
        &&& v.player.y == PLAYER_SPAWN_Y
        &&& v.player.velocity == 0
        &&& v.player.angle == 0
        &&& initial_pairs_layout(v.pairs@)
    } else {
        &&& v.phase == GameState::GameOver
        &&& v.player == w.player
        &&& v.pairs@ == w.pairs@
        &&& v.scoreboard == w.scoreboard
    }
}

impl World {
    /// A freshly initialised session: Paused, score zero, the player
    /// at its spawn point at rest, pairs and ground in their initial
    /// layouts.
    pub fn new() -> (w: World)
        ensures
            world_wf(w),
            w.phase == GameState::Paused,
            w.player.y == PLAYER_SPAWN_Y,
            w.player.velocity == 0,
            w.player.angle == 0,
            w.scoreboard.score == 0,
            initial_pairs_layout(w.pairs@),
            initial_ground_layout(w.ground@),
            w.timer.remaining_ms == 0,
    {
        World {
            phase: GameState::Paused,
            player: Player::spawn(),
            pairs: initial_pairs(),
            ground: initial_ground(),
            scoreboard: Scoreboard { score: 0 },
            timer: PostGameOverTimer::idle(),
        }
    }

    /// The ResetCoordinator: restore score, player pose and obstacle
    /// layout to a fresh round; the ground strip is phase-independent
    /// and keeps its positions.
    fn reset_round(&mut self)
        ensures
            final(self).scoreboard.score == 0,
            final(self).player.y == PLAYER_SPAWN_Y,
            final(self).player.velocity == 0,
            final(self).player.angle == 0,
            player_wf(final(self).player),
            initial_pairs_layout(final(self).pairs@),
            forall|i: int| 0 <= i < final(self).pairs@.len()
                ==> pair_wf(#[trigger] final(self).pairs@[i]),
            final(self).ground@ == old(self).ground@,
            final(self).phase == old(self).phase,
            final(self).timer == old(self).timer,
    {
        self.scoreboard = Scoreboard { score: 0 };
        self.pairs = initial_pairs();
        self.player = Player::spawn();
    }

    /// One Running tick, in the fixed component order: kinematics,
    /// scroller, scorer, collision detector, state machine.
    fn running_tick(&mut self, dt: u32, activate: bool)
        requires
            world_wf(*old(self)),
            old(self).phase == GameState::Running,
        ensures
            world_wf(*final(self)),
            running_tick_rel(*old(self), *final(self), dt, activate),
    {
        self.player.kinematics_tick(dt, activate);

        let ghost pairs0 = self.pairs@;
        scroll_pairs(&mut self.pairs);
        let ghost mid = self.pairs@;
        scroll_ground(&mut self.ground);
        score_tick(&mut self.pairs, &mut self.scoreboard);

        proof {
            lemma_tick_credits(pairs0, mid);
            assert forall|i: int| 0 <= i < pairs0.len() implies pair_tick_rel(
                #[trigger] pairs0[i],
                self.pairs@[i],
            ) by {
                assert(pair_step_rel(pairs0[i], mid[i]));
                assert(self.pairs@[i] == scored_pair(mid[i]));
            }
            assert forall|i: int| 0 <= i < self.pairs@.len() implies pair_wf(
                #[trigger] self.pairs@[i],
            ) by {
                assert(pair_wf(mid[i]));
                assert(self.pairs@[i] == scored_pair(mid[i]));
            }
        }

        let hit = detect_collision(&self.player, &self.pairs, &self.ground);
        if hit {
            let entered = try_transition(&mut self.phase, GameState::GameOver);
            proof {
                assert(entered);
            }
            self.timer = PostGameOverTimer::start();
        }
    }

    /// One GameOver tick: ground keeps animating, the countdown
    /// advances, and an honoured confirm input resets the round and
    /// returns to Paused.
    fn gameover_tick(&mut self, dt: u32, confirm: bool)
        requires
            world_wf(*old(self)),
            old(self).phase == GameState::GameOver,
        ensures
            world_wf(*final(self)),
            gameover_tick_rel(*old(self), *final(self), dt, confirm),
    {
        scroll_ground(&mut self.ground);
        self.timer.tick(dt);
        let reset_pending = confirm && self.timer.elapsed();
        if reset_pending {
            let back = try_transition(&mut self.phase, GameState::Paused);
            proof {
                assert(back);
            }
            self.reset_round();
        }
    }

    /// Whether the game-over overlay should be shown: exactly in the
    /// GameOver phase.
    pub fn game_over_ui_visible(&self) -> (b: bool)
        ensures
            b == (self.phase == GameState::GameOver),
    {
        match self.phase {
            GameState::GameOver => true,
            _ => false,
        }
    }

    /// The tick entry point, invoked once per frame by the host loop
    /// with the elapsed milliseconds and the two edge-triggered input
    /// signals; the core is otherwise passive.
    pub fn update(&mut self, dt: u32, activate: bool, confirm: bool)
        requires
            world_wf(*old(self)),
        ensures
            world_wf(*final(self)),
            old(self).phase == GameState::Paused && !(activate || confirm) ==> paused_idle_rel(
                *old(self),
                *final(self),
            ),
            old(self).phase == GameState::Paused && (activate || confirm) ==> running_tick_rel(
                *old(self),
                *final(self),
                dt,
                activate,
            ),
            old(self).phase == GameState::Running ==> running_tick_rel(
                *old(self),
                *final(self),
                dt,
                activate,
            ),
            old(self).phase == GameState::GameOver ==> gameover_tick_rel(
                *old(self),
                *final(self),
                dt,
                confirm,
            ),
    {
        match self.phase {
            GameState::Paused => {
                if activate || confirm {
                    let started = try_transition(&mut self.phase, GameState::Running);
                    proof {
                        assert(started);
                    }
                    self.running_tick(dt, activate);
                } else {
                    scroll_ground(&mut self.ground);
                }
            },
            GameState::Running => {
                self.running_tick(dt, activate);
            },
            GameState::GameOver => {
                self.gameover_tick(dt, confirm);
            },
        }
    }
}

} // verus!
