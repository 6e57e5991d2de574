//! Ball motion: the ball advances by `velocity * elapsed` each tick, except
//! during the freeze window that follows a score event.

use vstd::prelude::*;
use crate::config::BallConfig;
use crate::pong::{Ball, LastScoreTime, Transform, DIM_LIMIT, DT_LIMIT, MAX_TICK_TRAVEL, VEL_LIMIT};

verus! {

/// Advances the ball.
pub struct BallMotionSystem;

/// Whether ball motion is suspended: the time elapsed since the most recent
/// score event is still below the configured freeze window.
pub open spec fn spec_frozen(now_ms: u64, last_score_ms: u64, cfg: BallConfig) -> bool {
    now_ms - last_score_ms < cfg.score_timeout_ms
}

impl BallMotionSystem {
    /// One motion update: unless motion is frozen after a recent score
    /// event, the ball advances by `velocity * elapsed` on both axes; while
    /// frozen, its position is unchanged.  The velocity itself is never
    /// touched here.
    pub fn run(
        ball: &Ball,
        local: &mut Transform,
        now_ms: u64,
        dt_ms: u64,
        last_score: &LastScoreTime,
        cfg: &BallConfig,
    )
        requires
            last_score.0 <= now_ms,
            dt_ms <= DT_LIMIT,
            -VEL_LIMIT <= ball.velocity_x <= VEL_LIMIT,
            -VEL_LIMIT <= ball.velocity_y <= VEL_LIMIT,
            -(DIM_LIMIT + MAX_TICK_TRAVEL) <= old(local).x <= DIM_LIMIT + MAX_TICK_TRAVEL,
            -(DIM_LIMIT + MAX_TICK_TRAVEL) <= old(local).y <= DIM_LIMIT + MAX_TICK_TRAVEL,
        ensures
            spec_frozen(now_ms, last_score.0, *cfg) ==> *final(local) == *old(local),
            !spec_frozen(now_ms, last_score.0, *cfg) ==> {
                &&& final(local).x == old(local).x + ball.velocity_x * dt_ms
                &&& final(local).y == old(local).y + ball.velocity_y * dt_ms
                &&& final(local).z == old(local).z
            },
    {
        let diff: u64 = now_ms - last_score.0;
        if diff < cfg.score_timeout_ms {
            return ;
        }
        let dti: i64 = dt_ms as i64;
        proof {
            assert(ball.velocity_x * dti <= 1_000_000_000_000_000
                && -1_000_000_000_000_000 <= ball.velocity_x * dti) by (nonlinear_arith)
                requires
                    -1_000_000_000 <= ball.velocity_x <= 1_000_000_000,
                    0 <= dti <= 1_000_000,
            ;
            assert(ball.velocity_y * dti <= 1_000_000_000_000_000
                && -1_000_000_000_000_000 <= ball.velocity_y * dti) by (nonlinear_arith)
                requires
                    -1_000_000_000 <= ball.velocity_y <= 1_000_000_000,
                    0 <= dti <= 1_000_000,
            ;
        }
        local.x = local.x + ball.velocity_x * dti;
        local.y = local.y + ball.velocity_y * dti;
    }
}

} // verus!
