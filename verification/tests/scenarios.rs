use flappy_core::config::{
    FLOOR_BOUND, GAP_AMPLITUDE, GRAVITY_PER_TICK, JUMP_SPEED, PAIR_RECYCLE_X, PAIR_START_X,
    PIPE_SPACING, PLAYER_SPAWN_Y, PLAYER_X, POST_GAMEOVER_DELAY_MS, SCROLL_SPEED,
};
use flappy_core::obstacles::{ObstaclePair, PAIR_X_MIN};
use flappy_core::state::GameState;
use flappy_core::world::World;

#[test]
fn fresh_session_is_paused_at_the_spawn_point() {
    let w = World::new();
    assert_eq!(w.phase, GameState::Paused);
    assert_eq!(w.player.y, PLAYER_SPAWN_Y);
    assert_eq!(w.player.velocity, 0);
    assert_eq!(w.player.angle, 0);
    assert_eq!(w.scoreboard.score, 0);
    assert_eq!(w.pairs.len(), 2);
    assert_eq!(w.pairs[0].x, PAIR_START_X);
    assert_eq!(w.pairs[1].x, PAIR_START_X + PIPE_SPACING);
    assert_eq!(w.timer.remaining_ms, 0);
}

#[test]
fn paused_tick_only_animates_the_ground() {
    let mut w = World::new();
    let player_before = w.player;
    let pair_before = w.pairs[0];
    let ground_before = w.ground[0].x;
    w.update(16, false, false);
    assert_eq!(w.phase, GameState::Paused);
    assert_eq!(w.player, player_before);
    assert_eq!(w.pairs[0], pair_before);
    assert_eq!(w.scoreboard.score, 0);
    assert_eq!(w.ground[0].x, ground_before - SCROLL_SPEED);
}

#[test]
fn activate_starts_the_round_and_jumps_exactly() {
    // Scenario: spawn, then one tick with the activate signal.
    let mut w = World::new();
    w.update(16, true, false);
    assert_eq!(w.phase, GameState::Running);
    assert_eq!(w.player.velocity, JUMP_SPEED);
    assert_eq!(w.player.y, JUMP_SPEED * 16);
}

#[test]
fn confirm_also_starts_the_round_without_a_jump() {
    let mut w = World::new();
    w.update(16, false, true);
    assert_eq!(w.phase, GameState::Running);
    assert_eq!(w.player.velocity, GRAVITY_PER_TICK);
}

#[test]
fn passing_a_pair_scores_exactly_once() {
    // Scenario: an armed pair slightly right of the player; advance
    // until it falls behind the player's abscissa.
    let mut w = World::new();
    w.phase = GameState::Running;
    w.pairs[0] = ObstaclePair { x: PLAYER_X + 10_000_000, gap_y: 0, countable: true };
    w.pairs[1] = ObstaclePair { x: PAIR_START_X, gap_y: 0, countable: true };

    w.update(16, false, false);
    assert!(w.pairs[0].x > PLAYER_X);
    assert_eq!(w.scoreboard.score, 0);
    assert!(w.pairs[0].countable);

    w.update(16, false, false);
    assert!(w.pairs[0].x < PLAYER_X);
    assert_eq!(w.scoreboard.score, 1);
    assert!(!w.pairs[0].countable);

    // Further ticks never credit the same pass again.
    w.update(16, false, false);
    assert_eq!(w.scoreboard.score, 1);
    assert!(!w.pairs[0].countable);
}

#[test]
fn collision_ends_the_round_and_freezes_the_field() {
    // Scenario: while Running, a pair whose gap sits low enough that
    // its top blocker covers the player's abscissa on the next tick.
    let mut w = World::new();
    w.phase = GameState::Running;
    w.pairs[0] = ObstaclePair { x: PLAYER_X + SCROLL_SPEED, gap_y: -150_000_000, countable: false };
    w.pairs[1] = ObstaclePair { x: 600_000_000, gap_y: 0, countable: false };

    w.update(16, false, false);
    assert_eq!(w.phase, GameState::GameOver);
    assert_eq!(w.timer.remaining_ms, POST_GAMEOVER_DELAY_MS);
    assert!(w.game_over_ui_visible());

    // Player and obstacles stay frozen through GameOver ticks; the
    // ground keeps scrolling.
    let player_frozen = w.player;
    let pair_frozen = w.pairs[0];
    let ground_before = w.ground[0].x;
    w.update(16, false, false);
    assert_eq!(w.phase, GameState::GameOver);
    assert_eq!(w.player, player_frozen);
    assert_eq!(w.pairs[0], pair_frozen);
    assert_eq!(w.ground[0].x, ground_before - SCROLL_SPEED);
}

#[test]
fn confirm_is_ignored_until_the_delay_then_resets() {
    // Scenario: enter GameOver, confirm too early, then confirm after
    // the delay has elapsed.
    let mut w = World::new();
    w.phase = GameState::Running;
    w.pairs[0] = ObstaclePair { x: PLAYER_X + SCROLL_SPEED, gap_y: -150_000_000, countable: false };
    w.pairs[1] = ObstaclePair { x: 600_000_000, gap_y: 0, countable: false };
    w.scoreboard.score = 7;
    w.update(16, false, false);
    assert_eq!(w.phase, GameState::GameOver);

    // Confirm before the delay has elapsed: stays in GameOver.
    w.update(100, false, true);
    assert_eq!(w.phase, GameState::GameOver);
    assert_eq!(w.scoreboard.score, 7);

    // Let the rest of the delay pass without input.
    w.update(POST_GAMEOVER_DELAY_MS, false, false);
    assert_eq!(w.phase, GameState::GameOver);

    let ground_kept = w.ground[0].x;

    // Now the confirm is honoured: back to Paused through a reset.
    w.update(16, false, true);
    assert_eq!(w.phase, GameState::Paused);
    assert!(!w.game_over_ui_visible());
    assert_eq!(w.scoreboard.score, 0);
    assert_eq!(w.player.y, PLAYER_SPAWN_Y);
    assert_eq!(w.player.velocity, 0);
    assert_eq!(w.player.angle, 0);
    assert_eq!(w.pairs[0].x, PAIR_START_X);
    assert_eq!(w.pairs[1].x, PAIR_START_X + PIPE_SPACING);
    assert!(w.pairs[0].countable);
    assert!(w.pairs[1].countable);
    // The ground strip is not reset; it scrolled through the tick.
    assert_eq!(w.ground[0].x, ground_kept - SCROLL_SPEED);
}

#[test]
fn huge_dt_recycles_at_most_once_and_clamps_the_player() {
    let mut w = World::new();
    w.phase = GameState::Running;
    w.pairs[0] = ObstaclePair { x: PAIR_X_MIN, gap_y: 0, countable: false };
    w.pairs[1] = ObstaclePair { x: 600_000_000, gap_y: 0, countable: false };

    w.update(u32::MAX, false, false);
    // A single wrap, never compounded, whatever the tick length.
    assert_eq!(w.pairs[0].x, PAIR_RECYCLE_X);
    assert!(w.pairs[0].countable);
    assert!(-GAP_AMPLITUDE <= w.pairs[0].gap_y && w.pairs[0].gap_y < GAP_AMPLITUDE);
    // The extreme elapsed time is absorbed by the position clamp.
    assert_eq!(w.player.y, FLOOR_BOUND);
    assert_eq!(w.phase, GameState::Running);
}
