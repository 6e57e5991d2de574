//! Scenario tests for the four per-tick systems, run one at a time on
//! hand-built components.  All lengths are milliunits, times milliseconds.

use pong::ball_collision::BallCollisionSystem;
use pong::ball_motion::BallMotionSystem;
use pong::config::{ArenaConfig, BallConfig};
use pong::paddle::{clamp_i64, half, PaddleSystem};
use pong::pong::{Ball, LastScoreTime, Paddle, Scoreboard, ScoreText, Side, Transform};
use pong::score::ScoreSystem;
use pong::victory::VictorySystem;

fn arena() -> ArenaConfig {
    ArenaConfig { height: 100_000, width: 100_000 }
}

fn paddle(side: Side) -> Paddle {
    Paddle { side, width: 2_500, height: 15_000, speed: 75 }
}

fn left_paddle_at_edge() -> (Paddle, Transform) {
    (paddle(Side::Left), Transform { x: 1_250, y: 50_000, z: 0 })
}

fn right_paddle_at_edge() -> (Paddle, Transform) {
    (paddle(Side::Right), Transform { x: 98_750, y: 50_000, z: 0 })
}

fn blank_text() -> ScoreText {
    ScoreText { p1_score: String::from("0"), p2_score: String::from("0") }
}

#[test]
fn paddle_moves_by_scaled_step() {
    let (left, mut left_t) = left_paddle_at_edge();
    let (right, mut right_t) = right_paddle_at_edge();
    // full deflection: 75 * 16 = 1200 milliunits per tick; half deflection
    // down: 600 milliunits.
    PaddleSystem::run(&left, &mut left_t, &right, &mut right_t, Some(1_000), Some(-500), &arena());
    assert_eq!(left_t.y, 51_200);
    assert_eq!(right_t.y, 49_400);
    assert_eq!(left_t.x, 1_250);
    assert_eq!(right_t.x, 98_750);
}

#[test]
fn paddle_clamps_to_arena() {
    let (left, mut left_t) = left_paddle_at_edge();
    let (right, mut right_t) = right_paddle_at_edge();
    left_t.y = 92_000;
    right_t.y = 7_600;
    PaddleSystem::run(&left, &mut left_t, &right, &mut right_t, Some(1_000), Some(-1_000), &arena());
    // candidates 93_200 and 6_400 are clamped to height/2 from each edge
    assert_eq!(left_t.y, 92_500);
    assert_eq!(right_t.y, 7_500);
}

#[test]
fn paddle_missing_axis_is_no_op() {
    let (left, mut left_t) = left_paddle_at_edge();
    let (right, mut right_t) = right_paddle_at_edge();
    PaddleSystem::run(&left, &mut left_t, &right, &mut right_t, None, Some(0), &arena());
    assert_eq!(left_t.y, 50_000);
    assert_eq!(right_t.y, 50_000);
}

#[test]
fn motion_advances_by_velocity_times_elapsed() {
    let ball = Ball { velocity_x: 75, velocity_y: 50, radius: 2_500 };
    let mut local = Transform { x: 50_000, y: 50_000, z: 0 };
    let cfg = BallConfig { velocity_x: 75, velocity_y: 50, radius: 2_500, score_timeout_ms: 0 };
    BallMotionSystem::run(&ball, &mut local, 1_016, 16, &LastScoreTime(0), &cfg);
    assert_eq!(local.x, 51_200);
    assert_eq!(local.y, 50_800);
}

#[test]
fn motion_freezes_then_resumes_after_timeout() {
    let ball = Ball { velocity_x: 75, velocity_y: 50, radius: 2_500 };
    let mut local = Transform { x: 50_000, y: 50_000, z: 0 };
    let cfg = BallConfig { velocity_x: 75, velocity_y: 50, radius: 2_500, score_timeout_ms: 600 };
    let last = LastScoreTime(1_000);
    // 500 ms after the score event: still inside the freeze window
    BallMotionSystem::run(&ball, &mut local, 1_500, 16, &last, &cfg);
    assert_eq!(local.x, 50_000);
    assert_eq!(local.y, 50_000);
    // 600 ms after the score event: the window is over, motion resumes
    BallMotionSystem::run(&ball, &mut local, 1_600, 16, &last, &cfg);
    assert_eq!(local.x, 51_200);
    assert_eq!(local.y, 50_800);
}

#[test]
fn wall_bounce_flips_vy_once() {
    // ball at y = 97_600, at or beyond 100_000 - 2_500 = 97_500, moving up
    let mut ball = Ball { velocity_x: 75, velocity_y: 50, radius: 2_500 };
    let ball_t = Transform { x: 50_000, y: 97_600, z: 0 };
    let (left, left_t) = left_paddle_at_edge();
    let (right, right_t) = right_paddle_at_edge();
    BallCollisionSystem::run(&mut ball, &ball_t, &left, &left_t, &right, &right_t, &arena());
    assert_eq!(ball.velocity_x, 75);
    assert_eq!(ball.velocity_y, -50);
    // next tick, still inside the overlap but now moving down: no re-flip
    BallCollisionSystem::run(&mut ball, &ball_t, &left, &left_t, &right, &right_t, &arena());
    assert_eq!(ball.velocity_y, -50);
}

#[test]
fn bottom_wall_bounce_flips_vy() {
    let mut ball = Ball { velocity_x: 75, velocity_y: -50, radius: 2_500 };
    let ball_t = Transform { x: 50_000, y: 2_400, z: 0 };
    let (left, left_t) = left_paddle_at_edge();
    let (right, right_t) = right_paddle_at_edge();
    BallCollisionSystem::run(&mut ball, &ball_t, &left, &left_t, &right, &right_t, &arena());
    assert_eq!(ball.velocity_y, 50);
}

#[test]
fn left_paddle_bounces_approaching_ball() {
    // left paddle at x = 1_250, width 2_500, height 15_000, centered at
    // y = 50_000; ball at (3_000, 50_000) with radius 2_500 moving left
    let mut ball = Ball { velocity_x: -75, velocity_y: 0, radius: 2_500 };
    let ball_t = Transform { x: 3_000, y: 50_000, z: 0 };
    let (left, left_t) = left_paddle_at_edge();
    let (right, right_t) = right_paddle_at_edge();
    BallCollisionSystem::run(&mut ball, &ball_t, &left, &left_t, &right, &right_t, &arena());
    assert_eq!(ball.velocity_x, 75);
    assert_eq!(ball.velocity_y, 0);
}

#[test]
fn paddle_overlap_moving_away_does_not_reflip() {
    // same overlap as above, but the ball already moves away from the
    // left paddle: the flip must not trigger again
    let mut ball = Ball { velocity_x: 75, velocity_y: 0, radius: 2_500 };
    let ball_t = Transform { x: 3_000, y: 50_000, z: 0 };
    let (left, left_t) = left_paddle_at_edge();
    let (right, right_t) = right_paddle_at_edge();
    BallCollisionSystem::run(&mut ball, &ball_t, &left, &left_t, &right, &right_t, &arena());
    assert_eq!(ball.velocity_x, 75);
}

#[test]
fn right_paddle_bounces_approaching_ball() {
    let mut ball = Ball { velocity_x: 75, velocity_y: 0, radius: 2_500 };
    let ball_t = Transform { x: 97_000, y: 50_000, z: 0 };
    let (left, left_t) = left_paddle_at_edge();
    let (right, right_t) = right_paddle_at_edge();
    BallCollisionSystem::run(&mut ball, &ball_t, &left, &left_t, &right, &right_t, &arena());
    assert_eq!(ball.velocity_x, -75);
}

#[test]
fn collision_preserves_speed_magnitude() {
    let mut ball = Ball { velocity_x: -75, velocity_y: 50, radius: 2_500 };
    let before = ball.velocity_x * ball.velocity_x + ball.velocity_y * ball.velocity_y;
    let ball_t = Transform { x: 3_000, y: 97_600, z: 0 };
    // raise the left paddle to the top so its expanded rectangle reaches
    // the ball while the ball is also at the top wall
    let (left, mut left_t) = left_paddle_at_edge();
    left_t.y = 92_500;
    let (right, right_t) = right_paddle_at_edge();
    // both a wall bounce and a paddle bounce fire in the same pass
    BallCollisionSystem::run(&mut ball, &ball_t, &left, &left_t, &right, &right_t, &arena());
    assert_eq!(ball.velocity_x, 75);
    assert_eq!(ball.velocity_y, -50);
    let after = ball.velocity_x * ball.velocity_x + ball.velocity_y * ball.velocity_y;
    assert_eq!(before, after);
}

#[test]
fn right_scores_when_ball_exits_left() {
    // arena 100 x 100, radius 2.5, ball at x = 1.0 < 2.5
    let mut ball = Ball { velocity_x: -75, velocity_y: 50, radius: 2_500 };
    let mut ball_t = Transform { x: 1_000, y: 50_000, z: 0 };
    let mut text = blank_text();
    let mut board = Scoreboard { score_left: 0, score_right: 0 };
    let mut last = LastScoreTime(0);
    ScoreSystem::run(&mut ball, &mut ball_t, &mut text, &mut board, &arena(), 1_234, &mut last);
    assert_eq!(board.score_right, 1);
    assert_eq!(board.score_left, 0);
    assert_eq!(ball_t.x, 50_000);
    assert_eq!(ball_t.y, 50_000);
    assert_eq!(ball.velocity_x, 75);
    assert_eq!(ball.velocity_y, 50);
    assert_eq!(last.0, 1_234);
    assert_eq!(text.p2_score.as_str(), "1");
    assert_eq!(text.p1_score.as_str(), "0");
}

#[test]
fn left_scores_when_ball_exits_right() {
    let mut ball = Ball { velocity_x: 75, velocity_y: 0, radius: 2_500 };
    let mut ball_t = Transform { x: 97_500, y: 40_000, z: 0 };
    let mut text = blank_text();
    let mut board = Scoreboard { score_left: 6, score_right: 2 };
    let mut last = LastScoreTime(5);
    ScoreSystem::run(&mut ball, &mut ball_t, &mut text, &mut board, &arena(), 9_999, &mut last);
    assert_eq!(board.score_left, 7);
    assert_eq!(board.score_right, 2);
    assert_eq!(ball_t.x, 50_000);
    assert_eq!(ball.velocity_x, -75);
    assert_eq!(last.0, 9_999);
    assert_eq!(text.p1_score.as_str(), "7");
    assert_eq!(text.p2_score.as_str(), "0");
}

#[test]
fn no_score_inside_field() {
    let mut ball = Ball { velocity_x: 75, velocity_y: 0, radius: 2_500 };
    let mut ball_t = Transform { x: 2_500, y: 40_000, z: 0 };
    let mut text = blank_text();
    let mut board = Scoreboard { score_left: 0, score_right: 0 };
    let mut last = LastScoreTime(5);
    ScoreSystem::run(&mut ball, &mut ball_t, &mut text, &mut board, &arena(), 9_999, &mut last);
    assert_eq!(board.score_left, 0);
    assert_eq!(board.score_right, 0);
    assert_eq!(ball_t.x, 2_500);
    assert_eq!(ball.velocity_x, 75);
    assert_eq!(last.0, 5);
}

#[test]
fn score_counters_saturate_at_cap() {
    let mut ball = Ball { velocity_x: -75, velocity_y: 0, radius: 2_500 };
    let mut ball_t = Transform { x: 0, y: 50_000, z: 0 };
    let mut text = blank_text();
    let mut board = Scoreboard { score_left: 0, score_right: 999 };
    let mut last = LastScoreTime(0);
    ScoreSystem::run(&mut ball, &mut ball_t, &mut text, &mut board, &arena(), 7, &mut last);
    assert_eq!(board.score_right, 999);
    assert_eq!(text.p2_score.as_str(), "999");
}

#[test]
fn degenerate_narrow_arena_scores_both_sides() {
    // arena narrower than two ball radii: both edge conditions hold at
    // once; each fires independently, the velocity flips only once
    let narrow = ArenaConfig { height: 100_000, width: 4_000 };
    let mut ball = Ball { velocity_x: 75, velocity_y: 0, radius: 2_500 };
    let mut ball_t = Transform { x: 2_000, y: 50_000, z: 0 };
    let mut text = blank_text();
    let mut board = Scoreboard { score_left: 0, score_right: 0 };
    let mut last = LastScoreTime(0);
    ScoreSystem::run(&mut ball, &mut ball_t, &mut text, &mut board, &narrow, 50, &mut last);
    assert_eq!(board.score_left, 1);
    assert_eq!(board.score_right, 1);
    assert_eq!(ball.velocity_x, -75);
    assert_eq!(ball_t.x, 2_000);
    assert_eq!(last.0, 50);
}

#[test]
fn victory_run_reports_score_event() {
    let mut ball = Ball { velocity_x: -75, velocity_y: 0, radius: 2_500 };
    let mut ball_t = Transform { x: 1_000, y: 50_000, z: 0 };
    let mut text = blank_text();
    let mut board = Scoreboard { score_left: 0, score_right: 0 };
    let scored = VictorySystem::run(&mut ball, &mut ball_t, &mut text, &mut board, &arena());
    assert!(scored);
    assert_eq!(board.score_right, 1);
    assert_eq!(ball_t.x, 50_000);
    assert_eq!(ball.velocity_x, 75);
    let scored_again =
        VictorySystem::run(&mut ball, &mut ball_t, &mut text, &mut board, &arena());
    assert!(!scored_again);
    assert_eq!(board.score_right, 1);
}

#[test]
fn helpers_compute_exact_values() {
    assert_eq!(half(5), 2);
    assert_eq!(half(100_000), 50_000);
    assert_eq!(clamp_i64(5, 0, 10), 5);
    assert_eq!(clamp_i64(-3, 0, 10), 0);
    assert_eq!(clamp_i64(11, 0, 10), 10);
    assert!(pong::ball_collision::point_in_rect(3, 4, 0, 0, 3, 4));
    assert!(!pong::ball_collision::point_in_rect(5, 4, 0, 0, 3, 4));
}
