//! Collision resolution: bounces the ball off the horizontal arena walls
//! and off the paddles.  A bounce flips the sign of exactly one velocity
//! component, and only while the ball is moving toward what it hit, so a
//! ball lingering inside an overlap never flips twice.

use vstd::prelude::*;
use crate::config::ArenaConfig;
use crate::paddle::half;
use crate::pong::{Ball, Paddle, Side, Transform, DIM_LIMIT, VEL_LIMIT};

verus! {

/// Bounces the ball off walls and paddles.
pub struct BallCollisionSystem;

/// The vertical velocity after the wall check: flipped exactly when the
/// ball is at or beyond a horizontal wall and still moving toward it.
pub open spec fn spec_wall_vy(arena_height: int, radius: int, y: int, vy: int) -> int {
    if (y >= arena_height - radius && vy > 0) || (y <= radius && vy < 0) {
        -vy
    } else {
        vy
    }
}

/// Whether the paddle's collision rectangle — its body expanded outward by
/// the ball radius on all sides — contains the point `(x, y)`.  The paddle
/// sits at `(px, py)`.
pub open spec fn spec_in_paddle_zone(p: Paddle, px: int, py: int, radius: int, x: int, y: int) -> bool {
    let corner_x = px - p.width as int / 2;
    let corner_y = py - p.height as int / 2;
    &&& corner_x - radius <= x <= corner_x + p.width + radius
    &&& corner_y - radius <= y <= corner_y + p.height + radius
}

/// Whether this paddle bounces the ball: the ball's center lies in the
/// paddle's collision rectangle and the ball is moving toward the paddle's
/// side of the arena.
pub open spec fn spec_paddle_bounces(p: Paddle, px: int, py: int, radius: int, x: int, y: int, vx: int) -> bool {
    &&& spec_in_paddle_zone(p, px, py, radius, x, y)
    &&& match p.side {
        Side::Left => vx < 0,
        Side::Right => vx > 0,
    }
}

/// The horizontal velocity after evaluating one paddle.
pub open spec fn spec_after_paddle(p: Paddle, px: int, py: int, radius: int, x: int, y: int, vx: int) -> int {
    if spec_paddle_bounces(p, px, py, radius, x, y, vx) {
        -vx
    } else {
        vx
    }
}

/// The horizontal velocity after evaluating both paddles, the left one
/// first; each is judged against the velocity current at its turn.
pub open spec fn spec_after_paddles(
    left: Paddle, left_x: int, left_y: int,
    right: Paddle, right_x: int, right_y: int,
    radius: int, x: int, y: int, vx: int,
) -> int {
    spec_after_paddle(right, right_x, right_y, radius, x, y,
        spec_after_paddle(left, left_x, left_y, radius, x, y, vx))
}

/// Whether `(x, y)` lies in the axis-aligned rectangle with the given
/// edges.
pub fn point_in_rect(x: i64, y: i64, left: i64, bottom: i64, right: i64, top: i64) -> (r: bool)
    ensures
        r == (left <= x <= right && bottom <= y <= top),
{
    x >= left && x <= right && y >= bottom && y <= top
}

/// Evaluates one paddle and flips the ball's horizontal velocity if the
/// paddle bounces it.
fn bounce_off_paddle(ball: &mut Ball, ball_t: &Transform, p: &Paddle, p_t: &Transform)
    requires
        0 <= p.width <= DIM_LIMIT,
        0 <= p.height <= DIM_LIMIT,
        -DIM_LIMIT <= p_t.x <= DIM_LIMIT,
        -DIM_LIMIT <= p_t.y <= DIM_LIMIT,
        0 <= old(ball).radius <= DIM_LIMIT,
        -VEL_LIMIT <= old(ball).velocity_x <= VEL_LIMIT,
    ensures
        final(ball).velocity_x == spec_after_paddle(
            *p, p_t.x as int, p_t.y as int, old(ball).radius as int,
            ball_t.x as int, ball_t.y as int, old(ball).velocity_x as int,
        ),
        final(ball).velocity_y == old(ball).velocity_y,
        final(ball).radius == old(ball).radius,
{
    let corner_x: i64 = p_t.x - half(p.width);
    let corner_y: i64 = p_t.y - half(p.height);
    if point_in_rect(
        ball_t.x,
        ball_t.y,
        corner_x - ball.radius,
        corner_y - ball.radius,
        corner_x + p.width + ball.radius,
        corner_y + p.height + ball.radius,
    ) {
        let bounce: bool = match p.side {
            Side::Left => ball.velocity_x < 0,
            Side::Right => ball.velocity_x > 0,
        };
        if bounce {
            ball.velocity_x = -ball.velocity_x;
        }
    }
}

impl BallCollisionSystem {
    /// One collision pass, after motion: the wall check flips the vertical
    /// velocity exactly when the ball is at or beyond a horizontal wall and
    /// moving toward it; then each paddle in turn — left first — flips the
    /// horizontal velocity exactly when the ball is inside that paddle's
    /// expanded rectangle and moving toward that paddle's side.  Positions
    /// and the ball radius are untouched.
    pub fn run(
        ball: &mut Ball,
        ball_t: &Transform,
        left: &Paddle,
        left_t: &Transform,
        right: &Paddle,
        right_t: &Transform,
        arena: &ArenaConfig,
    )
        requires
            0 <= arena.height <= DIM_LIMIT,
            0 <= old(ball).radius <= DIM_LIMIT,
            -VEL_LIMIT <= old(ball).velocity_x <= VEL_LIMIT,
            -VEL_LIMIT <= old(ball).velocity_y <= VEL_LIMIT,
            0 <= left.width <= DIM_LIMIT,
            0 <= left.height <= DIM_LIMIT,
            0 <= right.width <= DIM_LIMIT,
            0 <= right.height <= DIM_LIMIT,
            -DIM_LIMIT <= left_t.x <= DIM_LIMIT,
            -DIM_LIMIT <= left_t.y <= DIM_LIMIT,
            -DIM_LIMIT <= right_t.x <= DIM_LIMIT,
            -DIM_LIMIT <= right_t.y <= DIM_LIMIT,
        ensures
            final(ball).radius == old(ball).radius,
            final(ball).velocity_y == spec_wall_vy(
                arena.height as int, old(ball).radius as int, ball_t.y as int,
                old(ball).velocity_y as int,
            ),
            final(ball).velocity_x == spec_after_paddles(
                *left, left_t.x as int, left_t.y as int,
                *right, right_t.x as int, right_t.y as int,
                old(ball).radius as int, ball_t.x as int, ball_t.y as int,
                old(ball).velocity_x as int,
            ),
    {
        let above_top: bool = ball_t.y >= arena.height - ball.radius && ball.velocity_y > 0;
        let below_bottom: bool = ball_t.y <= ball.radius && ball.velocity_y < 0;
        if above_top || below_bottom {
            ball.velocity_y = -ball.velocity_y;
        }
        bounce_off_paddle(ball, ball_t, left, left_t);
        bounce_off_paddle(ball, ball_t, right, right_t);
    }
}

/// Collision only flips velocity component signs, so the squared speed
/// `vx*vx + vy*vy` — and with it the speed magnitude — is unchanged across
/// a collision pass, whether the ball bounced off a wall, one or both
/// paddles, or nothing at all.
pub proof fn lemma_collision_preserves_speed(
    arena_height: int, radius: int, x: int, y: int, vx: int, vy: int,
    left: Paddle, left_t: Transform, right: Paddle, right_t: Transform,
)
    ensures
        ({
            let vy2 = spec_wall_vy(arena_height, radius, y, vy);
            let vx2 = spec_after_paddles(left, left_t.x as int, left_t.y as int,
                right, right_t.x as int, right_t.y as int, radius, x, y, vx);
            vx2 * vx2 + vy2 * vy2 == vx * vx + vy * vy
        }),
{
    let vy2 = spec_wall_vy(arena_height, radius, y, vy);
    let vx1 = spec_after_paddle(left, left_t.x as int, left_t.y as int, radius, x, y, vx);
    let vx2 = spec_after_paddle(right, right_t.x as int, right_t.y as int, radius, x, y, vx1);
    assert(vy2 == vy || vy2 == -vy);
    assert(vx2 == vx || vx2 == -vx);
    assert((-vx) * (-vx) == vx * vx) by (nonlinear_arith);
    assert((-vy) * (-vy) == vy * vy) by (nonlinear_arith);
}

/// A ball at or beyond the top wall that is no longer moving upward — it
/// has just bounced, or stalled — keeps its vertical velocity: while it
/// stays in the overlap but moves outward, no second flip happens.
pub proof fn lemma_wall_no_reflip_top(arena_height: int, radius: int, y: int, vy: int)
    requires
        0 <= radius,
        2 * radius < arena_height,
        y >= arena_height - radius,
        vy <= 0,
    ensures
        spec_wall_vy(arena_height, radius, y, vy) == vy,
{
}

/// The mirror case at the bottom wall: a ball at or beyond it that is no
/// longer moving downward keeps its vertical velocity.
pub proof fn lemma_wall_no_reflip_bottom(arena_height: int, radius: int, y: int, vy: int)
    requires
        0 <= radius,
        2 * radius < arena_height,
        y <= radius,
        vy >= 0,
    ensures
        spec_wall_vy(arena_height, radius, y, vy) == vy,
{
}

/// A ball still inside a paddle's collision rectangle but moving away from
/// that paddle's side — it has just bounced — is not flipped again by that
/// paddle.
pub proof fn lemma_paddle_no_reflip(p: Paddle, px: int, py: int, radius: int, x: int, y: int, vx: int)
    requires
        spec_in_paddle_zone(p, px, py, radius, x, y),
        p.side == Side::Left ==> vx >= 0,
        p.side == Side::Right ==> vx <= 0,
    ensures
        spec_after_paddle(p, px, py, radius, x, y, vx) == vx,
{
}

} // verus!
