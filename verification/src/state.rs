//! The phase state machine and the post-game-over input guard.
//!
//! Three phases — Paused (initial), Running, GameOver — and exactly
//! three legal transitions between them.  A confirm input is honoured
//! in GameOver only after the countdown has elapsed, so the input that
//! caused the collision cannot also restart the game.

use vstd::prelude::*;
use crate::config::POST_GAMEOVER_DELAY_MS;

verus! {

/// The current phase of the game.
#[derive(Clone, Copy, PartialEq, Eq, Structural, Debug)]
pub enum GameState {
    Paused,
    Running,
    GameOver,
}

/// The transition table: Paused to Running (on an activate or confirm
/// input), Running to GameOver (on a collision — the only entry into
/// GameOver), GameOver to Paused (on a confirm input after the
/// countdown).  Nothing else, and no self-loop, is a transition.
pub open spec fn transition_allowed(from: GameState, to: GameState) -> bool {
    ||| (from == GameState::Paused && to == GameState::Running)
    ||| (from == GameState::Running && to == GameState::GameOver)
    ||| (from == GameState::GameOver && to == GameState::Paused)
}

/// Request a phase change.  A request outside the transition table is
/// rejected and leaves the phase untouched.
pub fn try_transition(phase: &mut GameState, to: GameState) -> (ok: bool)
    ensures
        ok == transition_allowed(*old(phase), to),
        ok ==> *final(phase) == to,
        !ok ==> *final(phase) == *old(phase),
{
    let ok = match (*phase, to) {
        (GameState::Paused, GameState::Running) => true,
        (GameState::Running, GameState::GameOver) => true,
        (GameState::GameOver, GameState::Paused) => true,
        _ => false,
    };
    if ok {
        *phase = to;
    }
    ok
}

/// The machine admits exactly its three enumerated transitions and
/// rejects every other request; in particular no phase can transition
/// to itself, and GameOver is entered from Running alone.
pub proof fn lemma_transition_table(from: GameState, to: GameState)
    ensures
        transition_allowed(from, to) <==> ((from == GameState::Paused && to == GameState::Running)
            || (from == GameState::Running && to == GameState::GameOver)
            || (from == GameState::GameOver && to == GameState::Paused)),
        !transition_allowed(from, from),
        transition_allowed(from, GameState::GameOver) ==> from == GameState::Running,
{
}

/// The value of the countdown after `dt` elapsed milliseconds.
pub open spec fn timer_after(remaining: int, dt: int) -> int {
    if dt >= remaining {
        0
    } else {
        remaining - dt
    }
}

/// Countdown guarding how soon a confirm input is honoured after the
/// game ends.  It is polled, never callback-driven.
#[derive(Clone, Copy, PartialEq, Eq, Structural, Debug)]
pub struct PostGameOverTimer {
    pub remaining_ms: u32,
}

impl PostGameOverTimer {
    /// An elapsed timer, for a session that has not seen a collision
    /// yet.
    pub fn idle() -> (t: PostGameOverTimer)
        ensures
            t.remaining_ms == 0,
    {
        PostGameOverTimer { remaining_ms: 0 }
    }

    /// Start the countdown; called on entering GameOver.
    pub fn start() -> (t: PostGameOverTimer)
        ensures
            t.remaining_ms == POST_GAMEOVER_DELAY_MS,
    {
        PostGameOverTimer { remaining_ms: POST_GAMEOVER_DELAY_MS }
    }

    /// Advance the countdown by the elapsed tick time, saturating at
    /// zero.
    pub fn tick(&mut self, dt: u32)
        ensures
            final(self).remaining_ms == timer_after(old(self).remaining_ms as int, dt as int),
    {
        if dt >= self.remaining_ms {
            self.remaining_ms = 0;
        } else {
            self.remaining_ms = self.remaining_ms - dt;
        }
    }

    /// Whether the countdown has run out, so a confirm input is
    /// honoured again.
    pub fn elapsed(&self) -> (b: bool)
        ensures
            b == (self.remaining_ms == 0),
    {
        self.remaining_ms == 0
    }
}

} // verus!
