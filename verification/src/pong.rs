//! Entities and shared resources of the simulation, the assembled game
//! state, and the per-tick driver.

use vstd::prelude::*;
use vstd::arithmetic::div_mod::lemma_fundamental_div_mod;
use crate::config::{ArenaConfig, BallConfig, PongConfig};
use crate::ball_collision::{spec_after_paddle, spec_wall_vy, BallCollisionSystem};
use crate::ball_motion::{spec_frozen, BallMotionSystem};
use crate::paddle::{half, lemma_paddle_update_in_bounds, spec_paddle_y, PaddleSystem};
use crate::score::{
    decimal_string, spec_decimal, spec_left_scores, spec_right_scores, spec_score_inc, ScoreSystem,
};

verus! {

/// Upper bound on arena dimensions, paddle sizes and the ball radius,
/// in milliunits.
pub const DIM_LIMIT: i64 = 1_000_000_000;

/// Upper bound on the magnitude of each velocity component, in milliunits
/// per millisecond.
pub const VEL_LIMIT: i64 = 1_000_000_000;

/// Upper bound on the elapsed time of a single tick, in milliseconds.
pub const DT_LIMIT: u64 = 1_000_000;

/// Farthest the ball can travel along one axis in a single tick;
/// equal to `VEL_LIMIT * DT_LIMIT`.
pub const MAX_TICK_TRAVEL: i64 = 1_000_000_000_000_000;

/// Axis values are fixed-point fractions of full deflection at this scale:
/// an axis value of 1000 means full deflection, -1000 the opposite way.
pub const AXIS_SCALE: i64 = 1000;

/// Score counters saturate at this value.
pub const SCORE_CAP: u32 = 999;

/// Nominal tick duration, in milliseconds, used to turn a configured paddle
/// speed (milliunits per millisecond) into its fixed per-tick movement step.
pub const PADDLE_STEP_MS: i64 = 16;

/// Which half of the arena a paddle defends.
#[derive(Clone, Copy, Debug, PartialEq, Eq, Structural)]
pub enum Side {
    Left,
    Right,
}

/// A paddle: its side, its body size and its movement speed
/// (milliunits per millisecond).  Its position lives in a separate
/// [`Transform`].
#[derive(Clone, Copy, Debug, PartialEq, Eq, Structural)]
pub struct Paddle {
    pub side: Side,
    pub width: i64,
    pub height: i64,
    pub speed: i64,
}

/// The ball: its velocity (milliunits per millisecond, one field per axis)
/// and its radius.  Its position lives in a separate [`Transform`].
#[derive(Clone, Copy, Debug, PartialEq, Eq, Structural)]
pub struct Ball {
    pub velocity_x: i64,
    pub velocity_y: i64,
    pub radius: i64,
}

/// An entity position in milliunits.  The `z` coordinate is carried for the
/// rendering collaborator and never read by the simulation.
#[derive(Clone, Copy, Debug, PartialEq, Eq, Structural)]
pub struct Transform {
    pub x: i64,
    pub y: i64,
    pub z: i64,
}

/// The running score, one counter per side, each saturating at
/// [`SCORE_CAP`].
#[derive(Clone, Copy, Debug, PartialEq, Eq, Structural)]
pub struct Scoreboard {
    pub score_left: u32,
    pub score_right: u32,
}

/// The decimal text shown for each counter: player one displays the left
/// score, player two the right score.  The display collaborator reads these
/// strings; the scoring system keeps them in step with the counters.
#[derive(Debug)]
pub struct ScoreText {
    pub p1_score: String,
    pub p2_score: String,
}

/// The timestamp (milliseconds) of the most recent score event; zero at
/// session start.  Ball motion is suspended while the elapsed time since
/// this timestamp is below the configured freeze window.
#[derive(Clone, Copy, Debug, PartialEq, Eq, Structural)]
pub struct LastScoreTime(pub u64);

impl Default for LastScoreTime {
    /// At session start no score event has happened yet.
    fn default() -> (t: LastScoreTime)
        ensures
            t.0 == 0,
    {
        LastScoreTime(0)
    }
}

/// The whole simulation state, threaded through each tick: the immutable
/// session configuration, the two paddles and the ball with their
/// positions, and the shared score resources.
#[derive(Debug)]
pub struct Pong {
    pub arena: ArenaConfig,
    pub ball_config: BallConfig,
    pub left_paddle: Paddle,
    pub left_transform: Transform,
    pub right_paddle: Paddle,
    pub right_transform: Transform,
    pub ball: Ball,
    pub ball_transform: Transform,
    pub scoreboard: Scoreboard,
    pub score_text: ScoreText,
    pub last_score: LastScoreTime,
}

impl Pong {
    /// Well-formedness, established at session start and preserved by every
    /// tick: the session configuration is valid; the paddles sit on their
    /// own sides with their bodies inside the arena; the ball is
    /// horizontally inside the field, vertically at most one tick's travel
    /// beyond it, and headed back inward whenever it is past a wall; the
    /// counters stay at or below [`SCORE_CAP`] and the score text shows
    /// exactly their decimal numerals.
    pub open spec fn wf(self) -> bool {
        &&& 0 < self.arena.width <= DIM_LIMIT
        &&& 0 < self.arena.height <= DIM_LIMIT
        &&& 0 <= self.ball.radius <= DIM_LIMIT
        &&& 2 * self.ball.radius < self.arena.height
        &&& -VEL_LIMIT <= self.ball.velocity_x <= VEL_LIMIT
        &&& -VEL_LIMIT <= self.ball.velocity_y <= VEL_LIMIT
        &&& self.left_paddle.side == Side::Left
        &&& self.right_paddle.side == Side::Right
        &&& 0 <= self.left_paddle.width <= DIM_LIMIT
        &&& 0 <= self.left_paddle.height <= self.arena.height
        &&& 0 <= self.left_paddle.speed <= VEL_LIMIT
        &&& 0 <= self.right_paddle.width <= DIM_LIMIT
        &&& 0 <= self.right_paddle.height <= self.arena.height
        &&& 0 <= self.right_paddle.speed <= VEL_LIMIT
        &&& -DIM_LIMIT <= self.left_transform.x <= DIM_LIMIT
        &&& -DIM_LIMIT <= self.right_transform.x <= DIM_LIMIT
        &&& self.left_paddle.height as int / 2 <= self.left_transform.y
            <= self.arena.height - self.left_paddle.height as int / 2
        &&& self.right_paddle.height as int / 2 <= self.right_transform.y
            <= self.arena.height - self.right_paddle.height as int / 2
        &&& 0 <= self.ball_transform.x <= self.arena.width
        &&& -MAX_TICK_TRAVEL <= self.ball_transform.y
            <= self.arena.height + MAX_TICK_TRAVEL
        &&& self.ball_transform.y > self.arena.height - self.ball.radius
            ==> self.ball.velocity_y <= 0
        &&& self.ball_transform.y < self.ball.radius ==> self.ball.velocity_y >= 0
        &&& self.scoreboard.score_left <= SCORE_CAP
        &&& self.scoreboard.score_right <= SCORE_CAP
        &&& self.score_text.p1_score@ == spec_decimal(self.scoreboard.score_left as nat)
        &&& self.score_text.p2_score@ == spec_decimal(self.scoreboard.score_right as nat)
    }

    /// Builds the session-start state from a valid configuration: each
    /// paddle centered vertically and flush with its arena edge, the ball
    /// at the arena center with the configured velocity, a blank
    /// scoreboard showing "0" for both players, and no score event on
    /// record.
    pub fn on_start(config: &PongConfig) -> (game: Pong)
        requires
            config.wf(),
        ensures
            game.wf(),
            game.arena == config.arena,
            game.ball_config == config.ball,
            game.left_paddle == (Paddle {
                side: Side::Left,
                width: config.paddles.left.width,
                height: config.paddles.left.height,
                speed: config.paddles.left.speed,
            }),
            game.right_paddle == (Paddle {
                side: Side::Right,
                width: config.paddles.right.width,
                height: config.paddles.right.height,
                speed: config.paddles.right.speed,
            }),
            game.left_transform.x == config.paddles.left.width as int / 2,
            game.left_transform.y == config.arena.height as int / 2,
            game.left_transform.z == 0,
            game.right_transform.x == config.arena.width - config.paddles.right.width as int / 2,
            game.right_transform.y == config.arena.height as int / 2,
            game.right_transform.z == 0,
            game.ball == (Ball {
                velocity_x: config.ball.velocity_x,
                velocity_y: config.ball.velocity_y,
                radius: config.ball.radius,
            }),
            game.ball_transform.x == config.arena.width as int / 2,
            game.ball_transform.y == config.arena.height as int / 2,
            game.ball_transform.z == 0,
            game.scoreboard.score_left == 0,
            game.scoreboard.score_right == 0,
            game.score_text.p1_score@ == spec_decimal(0),
            game.score_text.p2_score@ == spec_decimal(0),
            game.last_score.0 == 0,
    {
        let mid_y: i64 = half(config.arena.height);
        let left_x: i64 = half(config.paddles.left.width);
        let right_x: i64 = config.arena.width - half(config.paddles.right.width);
        let game = Pong {
            arena: config.arena,
            ball_config: config.ball,
            left_paddle: Paddle {
                side: Side::Left,
                width: config.paddles.left.width,
                height: config.paddles.left.height,
                speed: config.paddles.left.speed,
            },
            left_transform: Transform { x: left_x, y: mid_y, z: 0 },
            right_paddle: Paddle {
                side: Side::Right,
                width: config.paddles.right.width,
                height: config.paddles.right.height,
                speed: config.paddles.right.speed,
            },
            right_transform: Transform { x: right_x, y: mid_y, z: 0 },
            ball: Ball {
                velocity_x: config.ball.velocity_x,
                velocity_y: config.ball.velocity_y,
                radius: config.ball.radius,
            },
            ball_transform: Transform { x: half(config.arena.width), y: mid_y, z: 0 },
            scoreboard: Scoreboard { score_left: 0, score_right: 0 },
            score_text: ScoreText { p1_score: decimal_string(0), p2_score: decimal_string(0) },
            last_score: LastScoreTime(0),
        };
        proof {
            lemma_fundamental_div_mod(config.arena.height as int, 2);
            lemma_fundamental_div_mod(config.arena.width as int, 2);
            lemma_fundamental_div_mod(config.paddles.left.height as int, 2);
            lemma_fundamental_div_mod(config.paddles.right.height as int, 2);
            lemma_fundamental_div_mod(config.paddles.left.width as int, 2);
            lemma_fundamental_div_mod(config.paddles.right.width as int, 2);
        }
        game
    }

    /// Executable check of [`Pong::wf`], for callers outside the verified
    /// world that need to validate a state before driving it.
    pub fn is_well_formed(&self) -> (r: bool)
        ensures
            r == self.wf(),
    {
        if !(0 < self.arena.width && self.arena.width <= DIM_LIMIT && 0 < self.arena.height
            && self.arena.height <= DIM_LIMIT) {
            return false;
        }
        if !(0 <= self.ball.radius && self.ball.radius <= DIM_LIMIT
            && 2 * self.ball.radius < self.arena.height) {
            return false;
        }
        if !(-VEL_LIMIT <= self.ball.velocity_x && self.ball.velocity_x <= VEL_LIMIT
            && -VEL_LIMIT <= self.ball.velocity_y && self.ball.velocity_y <= VEL_LIMIT) {
            return false;
        }
        if !(self.left_paddle.side == Side::Left && self.right_paddle.side == Side::Right) {
            return false;
        }
        if !(0 <= self.left_paddle.width && self.left_paddle.width <= DIM_LIMIT
            && 0 <= self.left_paddle.height && self.left_paddle.height <= self.arena.height
            && 0 <= self.left_paddle.speed && self.left_paddle.speed <= VEL_LIMIT) {
            return false;
        }
        if !(0 <= self.right_paddle.width && self.right_paddle.width <= DIM_LIMIT
            && 0 <= self.right_paddle.height && self.right_paddle.height <= self.arena.height
            && 0 <= self.right_paddle.speed && self.right_paddle.speed <= VEL_LIMIT) {
            return false;
        }
        if !(-DIM_LIMIT <= self.left_transform.x && self.left_transform.x <= DIM_LIMIT
            && -DIM_LIMIT <= self.right_transform.x && self.right_transform.x <= DIM_LIMIT) {
            return false;
        }
        let left_lo: i64 = half(self.left_paddle.height);
        if !(left_lo <= self.left_transform.y
            && self.left_transform.y <= self.arena.height - left_lo) {
            return false;
        }
        let right_lo: i64 = half(self.right_paddle.height);
        if !(right_lo <= self.right_transform.y
            && self.right_transform.y <= self.arena.height - right_lo) {
            return false;
        }
        if !(0 <= self.ball_transform.x && self.ball_transform.x <= self.arena.width) {
            return false;
        }
        if !(-MAX_TICK_TRAVEL <= self.ball_transform.y
            && self.ball_transform.y <= self.arena.height + MAX_TICK_TRAVEL) {
            return false;
        }
        if self.ball_transform.y > self.arena.height - self.ball.radius
            && self.ball.velocity_y > 0 {
            return false;
        }
        if self.ball_transform.y < self.ball.radius && self.ball.velocity_y < 0 {
            return false;
        }
        if !(self.scoreboard.score_left <= SCORE_CAP && self.scoreboard.score_right <= SCORE_CAP) {
            return false;
        }
        let left_text: String = decimal_string(self.scoreboard.score_left);
        let right_text: String = decimal_string(self.scoreboard.score_right);
        self.score_text.p1_score == left_text && self.score_text.p2_score == right_text
    }

    /// The ball's horizontal position after the motion stage of a tick.
    pub open spec fn spec_tick_x1(self, now_ms: u64, dt_ms: u64) -> int {
        if spec_frozen(now_ms, self.last_score.0, self.ball_config) {
            self.ball_transform.x as int
        } else {
            self.ball_transform.x + self.ball.velocity_x * dt_ms
        }
    }

    /// The ball's vertical position after the motion stage of a tick, which
    /// the rest of the tick leaves untouched.
    pub open spec fn spec_tick_y1(self, now_ms: u64, dt_ms: u64) -> int {
        if spec_frozen(now_ms, self.last_score.0, self.ball_config) {
            self.ball_transform.y as int
        } else {
            self.ball_transform.y + self.ball.velocity_y * dt_ms
        }
    }

    /// The left paddle's vertical position after the control stage.
    pub open spec fn spec_tick_left_y(self, left_axis: Option<i64>) -> int {
        spec_paddle_y(
            self.left_paddle, self.left_transform.y as int, left_axis, self.arena.height as int,
        )
    }

    /// The right paddle's vertical position after the control stage.
    pub open spec fn spec_tick_right_y(self, right_axis: Option<i64>) -> int {
        spec_paddle_y(
            self.right_paddle, self.right_transform.y as int, right_axis, self.arena.height as int,
        )
    }

    /// The ball's vertical velocity after the collision stage, which the
    /// scoring stage leaves untouched.
    pub open spec fn spec_tick_vy(self, now_ms: u64, dt_ms: u64) -> int {
        spec_wall_vy(
            self.arena.height as int,
            self.ball.radius as int,
            self.spec_tick_y1(now_ms, dt_ms),
            self.ball.velocity_y as int,
        )
    }

    /// The ball's horizontal velocity after the collision stage: each
    /// paddle is judged at its post-control position, the left one first.
    pub open spec fn spec_tick_vx_bounced(
        self, now_ms: u64, dt_ms: u64, left_axis: Option<i64>, right_axis: Option<i64>,
    ) -> int {
        spec_after_paddle(
            self.right_paddle,
            self.right_transform.x as int,
            self.spec_tick_right_y(right_axis),
            self.ball.radius as int,
            self.spec_tick_x1(now_ms, dt_ms),
            self.spec_tick_y1(now_ms, dt_ms),
            spec_after_paddle(
                self.left_paddle,
                self.left_transform.x as int,
                self.spec_tick_left_y(left_axis),
                self.ball.radius as int,
                self.spec_tick_x1(now_ms, dt_ms),
                self.spec_tick_y1(now_ms, dt_ms),
                self.ball.velocity_x as int,
            ),
        )
    }

    /// Whether the right side scores this tick.
    pub open spec fn spec_tick_right_scores(self, now_ms: u64, dt_ms: u64) -> bool {
        spec_right_scores(self.spec_tick_x1(now_ms, dt_ms), self.ball.radius as int)
    }

    /// Whether the left side scores this tick.
    pub open spec fn spec_tick_left_scores(self, now_ms: u64, dt_ms: u64) -> bool {
        spec_left_scores(
            self.spec_tick_x1(now_ms, dt_ms), self.arena.width as int, self.ball.radius as int,
        )
    }

    /// Whether either side scores this tick.
    pub open spec fn spec_tick_scored(self, now_ms: u64, dt_ms: u64) -> bool {
        self.spec_tick_right_scores(now_ms, dt_ms) || self.spec_tick_left_scores(now_ms, dt_ms)
    }

    /// The ball's horizontal velocity at the end of the tick: flipped once
    /// more if a score event sent the ball back.
    pub open spec fn spec_tick_vx(
        self, now_ms: u64, dt_ms: u64, left_axis: Option<i64>, right_axis: Option<i64>,
    ) -> int {
        if self.spec_tick_scored(now_ms, dt_ms) {
            -self.spec_tick_vx_bounced(now_ms, dt_ms, left_axis, right_axis)
        } else {
            self.spec_tick_vx_bounced(now_ms, dt_ms, left_axis, right_axis)
        }
    }

    /// The ball's horizontal position at the end of the tick: recentered if
    /// a score event happened.
    pub open spec fn spec_tick_ball_x(self, now_ms: u64, dt_ms: u64) -> int {
        if self.spec_tick_scored(now_ms, dt_ms) {
            self.arena.width as int / 2
        } else {
            self.spec_tick_x1(now_ms, dt_ms)
        }
    }

    /// One simulation tick, in the fixed dependency order: paddle control,
    /// ball motion, collision, scoring.  The exact outcome of every stage
    /// is given by the `spec_tick_*` functions over the pre-tick state, and
    /// well-formedness is preserved, so ticks can be chained forever.
    pub fn tick(
        &mut self,
        now_ms: u64,
        dt_ms: u64,
        left_axis: Option<i64>,
        right_axis: Option<i64>,
    )
        requires
            old(self).wf(),
            old(self).last_score.0 <= now_ms,
            dt_ms <= DT_LIMIT,
            left_axis matches Some(a) ==> -AXIS_SCALE <= a <= AXIS_SCALE,
            right_axis matches Some(a) ==> -AXIS_SCALE <= a <= AXIS_SCALE,
        ensures
            final(self).wf(),
            final(self).arena == old(self).arena,
            final(self).ball_config == old(self).ball_config,
            final(self).left_paddle == old(self).left_paddle,
            final(self).right_paddle == old(self).right_paddle,
            final(self).left_transform.x == old(self).left_transform.x,
            final(self).left_transform.z == old(self).left_transform.z,
            final(self).left_transform.y == old(self).spec_tick_left_y(left_axis),
            final(self).right_transform.x == old(self).right_transform.x,
            final(self).right_transform.z == old(self).right_transform.z,
            final(self).right_transform.y == old(self).spec_tick_right_y(right_axis),
            final(self).ball.radius == old(self).ball.radius,
            final(self).ball.velocity_y == old(self).spec_tick_vy(now_ms, dt_ms),
            final(self).ball.velocity_x
                == old(self).spec_tick_vx(now_ms, dt_ms, left_axis, right_axis),
            final(self).ball_transform.x == old(self).spec_tick_ball_x(now_ms, dt_ms),
            final(self).ball_transform.y == old(self).spec_tick_y1(now_ms, dt_ms),
            final(self).ball_transform.z == old(self).ball_transform.z,
            final(self).scoreboard.score_right == (
                if old(self).spec_tick_right_scores(now_ms, dt_ms) {
                    spec_score_inc(old(self).scoreboard.score_right as int)
                } else {
                    old(self).scoreboard.score_right as int
                }
            ),
            final(self).scoreboard.score_left == (
                if old(self).spec_tick_left_scores(now_ms, dt_ms) {
                    spec_score_inc(old(self).scoreboard.score_left as int)
                } else {
                    old(self).scoreboard.score_left as int
                }
            ),
            final(self).score_text.p2_score@ == (
                if old(self).spec_tick_right_scores(now_ms, dt_ms) {
                    spec_decimal(final(self).scoreboard.score_right as nat)
                } else {
                    old(self).score_text.p2_score@
                }
            ),
            final(self).score_text.p1_score@ == (
                if old(self).spec_tick_left_scores(now_ms, dt_ms) {
                    spec_decimal(final(self).scoreboard.score_left as nat)
                } else {
                    old(self).score_text.p1_score@
                }
            ),
            final(self).last_score.0 == (
                if old(self).spec_tick_scored(now_ms, dt_ms) {
                    now_ms
                } else {
                    old(self).last_score.0
                }
            ),
    {
        PaddleSystem::run(
            &self.left_paddle,
            &mut self.left_transform,
            &self.right_paddle,
            &mut self.right_transform,
            left_axis,
            right_axis,
            &self.arena,
        );
        proof {
            match left_axis {
                Some(a) => lemma_paddle_update_in_bounds(
                    self.left_paddle, old(self).left_transform.y as int, a,
                    self.arena.height as int,
                ),
                None => {},
            }
            match right_axis {
                Some(a) => lemma_paddle_update_in_bounds(
                    self.right_paddle, old(self).right_transform.y as int, a,
                    self.arena.height as int,
                ),
                None => {},
            }
        }
        BallMotionSystem::run(
            &self.ball,
            &mut self.ball_transform,
            now_ms,
            dt_ms,
            &self.last_score,
            &self.ball_config,
        );
        proof {
            assert(self.ball.velocity_y * dt_ms <= 1_000_000_000_000_000
                && -1_000_000_000_000_000 <= self.ball.velocity_y * dt_ms) by (nonlinear_arith)
                requires
                    -1_000_000_000 <= self.ball.velocity_y <= 1_000_000_000,
                    0 <= dt_ms <= 1_000_000,
            ;
            assert(self.ball.velocity_y <= 0 ==> self.ball.velocity_y * dt_ms <= 0)
                by (nonlinear_arith)
                requires
                    0 <= dt_ms,
            ;
            assert(self.ball.velocity_y >= 0 ==> self.ball.velocity_y * dt_ms >= 0)
                by (nonlinear_arith)
                requires
                    0 <= dt_ms,
            ;
        }
        BallCollisionSystem::run(
            &mut self.ball,
            &self.ball_transform,
            &self.left_paddle,
            &self.left_transform,
            &self.right_paddle,
            &self.right_transform,
            &self.arena,
        );
        ScoreSystem::run(
            &mut self.ball,
            &mut self.ball_transform,
            &mut self.score_text,
            &mut self.scoreboard,
            &self.arena,
            now_ms,
            &mut self.last_score,
        );
        proof {
            lemma_fundamental_div_mod(self.arena.width as int, 2);
        }
    }
}

/// Across one whole tick the ball's squared speed `vx*vx + vy*vy` — and
/// with it the speed magnitude — is unchanged: motion never touches the
/// velocity, and collision and scoring only flip component signs.
pub proof fn lemma_tick_preserves_speed(
    s: Pong,
    now_ms: u64,
    dt_ms: u64,
    left_axis: Option<i64>,
    right_axis: Option<i64>,
)
    ensures
        ({
            let vx2 = s.spec_tick_vx(now_ms, dt_ms, left_axis, right_axis);
            let vy2 = s.spec_tick_vy(now_ms, dt_ms);
            vx2 * vx2 + vy2 * vy2
                == s.ball.velocity_x * s.ball.velocity_x
                    + s.ball.velocity_y * s.ball.velocity_y
        }),
{
    let vx0 = s.ball.velocity_x as int;
    let vy0 = s.ball.velocity_y as int;
    let vx2 = s.spec_tick_vx(now_ms, dt_ms, left_axis, right_axis);
    let vy2 = s.spec_tick_vy(now_ms, dt_ms);
    assert(vx2 == vx0 || vx2 == -vx0);
    assert(vy2 == vy0 || vy2 == -vy0);
    assert((-vx0) * (-vx0) == vx0 * vx0) by (nonlinear_arith);
    assert((-vy0) * (-vy0) == vy0 * vy0) by (nonlinear_arith);
}

} // verus!
