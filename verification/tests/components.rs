use flappy_core::clamp_i64;
use flappy_core::config::{
    Config, CEILING_BOUND, FLOOR_BOUND, GAP_AMPLITUDE, GAP_DEAD_ZONE, GRAVITY_PER_TICK,
    GROUND_WRAP, JUMP_SPEED, PAIR_RECYCLE_X, PAIR_START_X, PIPE_SPACING, PLAYER_X,
    POST_GAMEOVER_DELAY_MS, SCROLL_SPEED, TILT_UP, VELOCITY_MIN,
};
use flappy_core::geometry::aabbs_overlap;
use flappy_core::obstacles::{
    draw_recycle_offset, draw_reset_offset, initial_ground, initial_pairs, GroundTile,
    ObstaclePair, GROUND_X_MIN, PAIR_X_MIN,
};
use flappy_core::player::Player;
use flappy_core::score::{score_tick, Scoreboard};
use flappy_core::state::{try_transition, GameState, PostGameOverTimer};

#[test]
fn clamp_inside_low_high() {
    assert_eq!(clamp_i64(5, 0, 10), 5);
    assert_eq!(clamp_i64(-3, 0, 10), 0);
    assert_eq!(clamp_i64(42, 0, 10), 10);
    assert_eq!(clamp_i64(7, 7, 7), 7);
}

#[test]
fn overlap_of_nonzero_area_is_detected() {
    // Clearly overlapping boxes.
    assert!(aabbs_overlap(0, 0, 10, 10, 19, 0, 10, 10));
    assert!(aabbs_overlap(0, 0, 10, 10, 0, -19, 10, 10));
    // Overlap by a single unit in each axis.
    assert!(aabbs_overlap(0, 0, 10, 10, 19, 19, 10, 10));
}

#[test]
fn touching_edges_are_no_overlap() {
    // Shared edge: zero area, not a collision.
    assert!(!aabbs_overlap(0, 0, 10, 10, 20, 0, 10, 10));
    assert!(!aabbs_overlap(0, 0, 10, 10, 0, 20, 10, 10));
    // Disjoint.
    assert!(!aabbs_overlap(0, 0, 10, 10, 100, 100, 10, 10));
}

#[test]
fn overlap_is_deterministic() {
    let first = aabbs_overlap(3, 4, 5, 6, 7, 8, 9, 10);
    let second = aabbs_overlap(3, 4, 5, 6, 7, 8, 9, 10);
    assert_eq!(first, second);
}

#[test]
fn gravity_tick_integrates_and_tilts() {
    let mut p = Player::spawn();
    p.kinematics_tick(16, false);
    assert_eq!(p.velocity, GRAVITY_PER_TICK);
    assert_eq!(p.y, GRAVITY_PER_TICK * 16);
    assert_eq!(p.angle, -2_880);
}

#[test]
fn jump_overrides_gravity_for_the_tick() {
    let mut p = Player::spawn();
    p.kinematics_tick(16, true);
    assert_eq!(p.velocity, JUMP_SPEED);
    assert_eq!(p.y, JUMP_SPEED * 16);
    assert_eq!(p.angle, TILT_UP);
}

#[test]
fn velocity_clamps_at_lower_bound() {
    let mut p = Player { y: 0, velocity: VELOCITY_MIN, angle: 0 };
    p.kinematics_tick(16, false);
    assert_eq!(p.velocity, VELOCITY_MIN);
}

#[test]
fn position_clamps_at_floor() {
    let mut p = Player { y: FLOOR_BOUND, velocity: VELOCITY_MIN, angle: 0 };
    p.kinematics_tick(1_000_000, false);
    assert_eq!(p.y, FLOOR_BOUND);
}

#[test]
fn position_clamps_at_ceiling() {
    let mut p = Player { y: CEILING_BOUND, velocity: 0, angle: 0 };
    p.kinematics_tick(100_000, true);
    assert_eq!(p.y, CEILING_BOUND);
}

#[test]
fn angle_clamps_at_lower_limit() {
    let mut p = Player::spawn();
    p.kinematics_tick(1_000_000, false);
    assert_eq!(p.angle, -90_000);
}

#[test]
fn zero_dt_changes_velocity_but_not_position() {
    let mut p = Player::spawn();
    p.kinematics_tick(0, false);
    assert_eq!(p.velocity, GRAVITY_PER_TICK);
    assert_eq!(p.y, 0);
}

#[test]
fn pair_scrolls_left_without_recycle() {
    let p = ObstaclePair { x: 100_000_000, gap_y: 42, countable: false };
    let n = p.scrolled();
    assert_eq!(n.x, 100_000_000 - SCROLL_SPEED);
    assert_eq!(n.gap_y, 42);
    assert!(!n.countable);
}

#[test]
fn pair_recycles_once_at_the_boundary() {
    let p = ObstaclePair { x: PAIR_X_MIN, gap_y: 0, countable: false };
    let n = p.scrolled();
    assert_eq!(n.x, PAIR_RECYCLE_X);
    assert!(n.countable);
    assert!(-GAP_AMPLITUDE <= n.gap_y && n.gap_y < GAP_AMPLITUDE);
}

#[test]
fn ground_scrolls_and_wraps_by_strip_width() {
    let t = GroundTile { x: -152_000_000 };
    let n = t.scrolled();
    assert_eq!(n.x, -152_000_000 - SCROLL_SPEED);

    let edge = GroundTile { x: GROUND_X_MIN };
    let wrapped = edge.scrolled();
    assert_eq!(wrapped.x, GROUND_X_MIN - SCROLL_SPEED + GROUND_WRAP);
}

#[test]
fn recycle_offsets_stay_in_amplitude() {
    for _ in 0..200 {
        let o = draw_recycle_offset();
        assert!(-GAP_AMPLITUDE <= o && o < GAP_AMPLITUDE);
    }
}

#[test]
fn reset_offsets_avoid_the_dead_zone() {
    for _ in 0..200 {
        let o = draw_reset_offset();
        assert!(-GAP_AMPLITUDE <= o && o < GAP_AMPLITUDE);
        assert!(o >= GAP_DEAD_ZONE || o < -GAP_DEAD_ZONE);
    }
}

#[test]
fn scoring_credits_exactly_the_armed_passed_pairs() {
    let mut pairs = vec![
        ObstaclePair { x: PLAYER_X - 1, gap_y: 0, countable: true },
        ObstaclePair { x: PLAYER_X - 1, gap_y: 0, countable: false },
        ObstaclePair { x: PLAYER_X + 1, gap_y: 0, countable: true },
    ];
    let mut board = Scoreboard { score: 5 };
    score_tick(&mut pairs, &mut board);
    assert_eq!(board.score, 6);
    assert!(!pairs[0].countable);
    assert!(!pairs[1].countable);
    assert!(pairs[2].countable);

    // A second pass credits nothing: the flag was cleared on credit.
    score_tick(&mut pairs, &mut board);
    assert_eq!(board.score, 6);
    assert!(!pairs[0].countable);
}

#[test]
fn scoring_saturates_at_the_counter_top() {
    let mut pairs = vec![ObstaclePair { x: PLAYER_X - 1, gap_y: 0, countable: true }];
    let mut board = Scoreboard { score: usize::MAX };
    score_tick(&mut pairs, &mut board);
    assert_eq!(board.score, usize::MAX);
    assert!(!pairs[0].countable);
}

#[test]
fn transition_table_admits_exactly_three() {
    let cases = [
        (GameState::Paused, GameState::Paused, false),
        (GameState::Paused, GameState::Running, true),
        (GameState::Paused, GameState::GameOver, false),
        (GameState::Running, GameState::Paused, false),
        (GameState::Running, GameState::Running, false),
        (GameState::Running, GameState::GameOver, true),
        (GameState::GameOver, GameState::Paused, true),
        (GameState::GameOver, GameState::Running, false),
        (GameState::GameOver, GameState::GameOver, false),
    ];
    for (from, to, allowed) in cases {
        let mut phase = from;
        let ok = try_transition(&mut phase, to);
        assert_eq!(ok, allowed);
        if allowed {
            assert_eq!(phase, to);
        } else {
            assert_eq!(phase, from);
        }
    }
}

#[test]
fn timer_counts_down_and_saturates() {
    let mut t = PostGameOverTimer::start();
    assert_eq!(t.remaining_ms, POST_GAMEOVER_DELAY_MS);
    assert!(!t.elapsed());
    t.tick(200);
    assert_eq!(t.remaining_ms, POST_GAMEOVER_DELAY_MS - 200);
    t.tick(u32::MAX);
    assert_eq!(t.remaining_ms, 0);
    assert!(t.elapsed());
    t.tick(5);
    assert_eq!(t.remaining_ms, 0);
}

#[test]
fn initial_pair_layout_is_staggered_and_armed() {
    let pairs = initial_pairs();
    assert_eq!(pairs.len(), 2);
    for (i, p) in pairs.iter().enumerate() {
        assert_eq!(p.x, PAIR_START_X + (i as i64) * PIPE_SPACING);
        assert!(p.countable);
        assert!(p.gap_y >= GAP_DEAD_ZONE || p.gap_y < -GAP_DEAD_ZONE);
        assert!(-GAP_AMPLITUDE <= p.gap_y && p.gap_y < GAP_AMPLITUDE);
    }
}

#[test]
fn initial_ground_layout_is_seamless() {
    let ground = initial_ground();
    assert_eq!(ground.len(), 3);
    assert_eq!(ground[0].x, -152_000_000);
    assert_eq!(ground[1].x, 184_000_000);
    assert_eq!(ground[2].x, 520_000_000);
}

#[test]
fn config_table_reports_the_constants() {
    let c = Config::table();
    assert_eq!(c.gravity, GRAVITY_PER_TICK);
    assert_eq!(c.jump_speed, JUMP_SPEED);
    assert_eq!(c.scroll_speed, SCROLL_SPEED);
    assert_eq!(c.pipe_spacing, PIPE_SPACING);
    assert_eq!(c.gap_amplitude, GAP_AMPLITUDE);
    assert_eq!(c.velocity_min, VELOCITY_MIN);
    assert_eq!(c.post_gameover_delay_ms, POST_GAMEOVER_DELAY_MS);
}
