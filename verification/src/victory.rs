//! The victory variant of the scoring update: identical edge judgement,
//! counter saturation, text refresh and ball reset, but it leaves the
//! freeze timestamp untouched and instead reports whether a score event
//! happened, so the caller can announce the new standings.

use vstd::prelude::*;
use crate::config::ArenaConfig;
use crate::pong::{Ball, Scoreboard, ScoreText, Transform, DIM_LIMIT, SCORE_CAP, VEL_LIMIT};
use crate::score::{apply_scoring, spec_decimal, spec_left_scores, spec_right_scores, spec_score_inc, spec_scored};

verus! {

/// Scores exiting balls and reports score events to the caller.
pub struct VictorySystem;

impl VictorySystem {
    /// One scoring update, after collision: both edges are judged
    /// independently against the tick's final ball position; on any score
    /// event the ball's horizontal velocity flips and its horizontal
    /// position resets to the arena center.  Returns whether a score event
    /// happened, so the caller can report the standings.
    pub fn run(
        ball: &mut Ball,
        ball_t: &mut Transform,
        text: &mut ScoreText,
        scoreboard: &mut Scoreboard,
        arena: &ArenaConfig,
    ) -> (scored: bool)
        requires
            0 <= arena.width <= DIM_LIMIT,
            0 <= old(ball).radius <= DIM_LIMIT,
            -VEL_LIMIT <= old(ball).velocity_x <= VEL_LIMIT,
            old(scoreboard).score_left <= SCORE_CAP,
            old(scoreboard).score_right <= SCORE_CAP,
        ensures
            scored == spec_scored(old(ball_t).x as int, arena.width as int, old(ball).radius as int),
            final(scoreboard).score_right as int == (
                if spec_right_scores(old(ball_t).x as int, old(ball).radius as int) {
                    spec_score_inc(old(scoreboard).score_right as int)
                } else {
                    old(scoreboard).score_right as int
                }
            ),
            final(scoreboard).score_left as int == (
                if spec_left_scores(old(ball_t).x as int, arena.width as int, old(ball).radius as int) {
                    spec_score_inc(old(scoreboard).score_left as int)
                } else {
                    old(scoreboard).score_left as int
                }
            ),
            final(text).p2_score@ == (
                if spec_right_scores(old(ball_t).x as int, old(ball).radius as int) {
                    spec_decimal(final(scoreboard).score_right as nat)
                } else {
                    old(text).p2_score@
                }
            ),
            final(text).p1_score@ == (
                if spec_left_scores(old(ball_t).x as int, arena.width as int, old(ball).radius as int) {
                    spec_decimal(final(scoreboard).score_left as nat)
                } else {
                    old(text).p1_score@
                }
            ),
            final(ball).velocity_x == (
                if scored {
                    -old(ball).velocity_x
                } else {
                    old(ball).velocity_x as int
                }
            ),
            final(ball).velocity_y == old(ball).velocity_y,
            final(ball).radius == old(ball).radius,
            final(ball_t).x as int == (
                if scored {
                    arena.width as int / 2
                } else {
                    old(ball_t).x as int
                }
            ),
            final(ball_t).y == old(ball_t).y,
            final(ball_t).z == old(ball_t).z,
    {
        apply_scoring(ball, ball_t, text, scoreboard, arena)
    }
}

} // verus!
