//! Paddle control: each paddle with an axis reading moves vertically by a
//! fixed per-tick step scaled by the reading, and is clamped so its body
//! never leaves the arena.  A missing reading leaves the paddle untouched.

use vstd::prelude::*;
use vstd::arithmetic::div_mod::{lemma_div_is_ordered, lemma_fundamental_div_mod};
use crate::config::ArenaConfig;
use crate::pong::{Paddle, Transform, AXIS_SCALE, DIM_LIMIT, PADDLE_STEP_MS, VEL_LIMIT};

verus! {

/// Reads input and moves the paddles.
pub struct PaddleSystem;

/// The value `v` limited to the closed interval `[lo, hi]`.
pub open spec fn spec_clamp(v: int, lo: int, hi: int) -> int {
    if v < lo {
        lo
    } else if v > hi {
        hi
    } else {
        v
    }
}

/// Movement step of a paddle of speed `speed` for an axis reading `axis`:
/// the distance covered at that speed over the nominal tick, scaled by the
/// deflection.  The division truncates toward zero.
pub open spec fn spec_paddle_step(speed: int, axis: int) -> int {
    if axis >= 0 {
        speed * PADDLE_STEP_MS * axis / (AXIS_SCALE as int)
    } else {
        -(speed * PADDLE_STEP_MS * -axis / (AXIS_SCALE as int))
    }
}

/// A paddle's vertical position after one control update: the candidate
/// `y + step` clamped so the paddle body stays inside the arena; no axis
/// reading means no movement.
pub open spec fn spec_paddle_y(p: Paddle, y: int, axis: Option<i64>, arena_height: int) -> int {
    match axis {
        Option::None => y,
        Option::Some(a) => spec_clamp(
            y + spec_paddle_step(p.speed as int, a as int),
            p.height as int / 2,
            arena_height - p.height as int / 2,
        ),
    }
}

/// Half of a nonnegative length, truncated.
pub fn half(x: i64) -> (r: i64)
    requires
        0 <= x,
    ensures
        r == x as int / 2,
{
    ((x as u64) / 2) as i64
}

/// `v` limited to `[lo, hi]`; the bounds must be ordered.
pub fn clamp_i64(v: i64, lo: i64, hi: i64) -> (r: i64)
    requires
        lo <= hi,
    ensures
        r == spec_clamp(v as int, lo as int, hi as int),
{
    if v < lo {
        lo
    } else if v > hi {
        hi
    } else {
        v
    }
}

/// The movement step of one control update, as executable code.
fn paddle_step(speed: i64, axis: i64) -> (d: i64)
    requires
        0 <= speed <= VEL_LIMIT,
        -AXIS_SCALE <= axis <= AXIS_SCALE,
    ensures
        d == spec_paddle_step(speed as int, axis as int),
        -(VEL_LIMIT * PADDLE_STEP_MS) <= d <= VEL_LIMIT * PADDLE_STEP_MS,
{
    let mag: u64 = if axis >= 0 {
        axis as u64
    } else {
        (-axis) as u64
    };
    let scaled16: u64 = (speed as u64) * (PADDLE_STEP_MS as u64);
    assert(scaled16 * mag <= 16_000_000_000_000) by (nonlinear_arith)
        requires
            scaled16 <= 16_000_000_000,
            mag <= 1_000,
    ;
    let scaled: u64 = scaled16 * mag;
    let step: u64 = scaled / (AXIS_SCALE as u64);
    proof {
        lemma_div_is_ordered(scaled as int, 16_000_000_000_000, AXIS_SCALE as int);
    }
    let s: i64 = step as i64;
    if axis >= 0 {
        s
    } else {
        -s
    }
}

impl PaddleSystem {
    /// One control update over both paddles.  Each paddle whose axis has a
    /// reading moves by its per-tick step scaled by the reading and is
    /// clamped to the arena; a paddle without a reading keeps its position.
    /// Only the vertical coordinates change.
    pub fn run(
        left: &Paddle,
        left_t: &mut Transform,
        right: &Paddle,
        right_t: &mut Transform,
        left_axis: Option<i64>,
        right_axis: Option<i64>,
        arena: &ArenaConfig,
    )
        requires
            0 <= left.height <= arena.height,
            0 <= right.height <= arena.height,
            0 <= left.speed <= VEL_LIMIT,
            0 <= right.speed <= VEL_LIMIT,
            arena.height <= DIM_LIMIT,
            -DIM_LIMIT <= old(left_t).y <= DIM_LIMIT,
            -DIM_LIMIT <= old(right_t).y <= DIM_LIMIT,
            left_axis matches Some(a) ==> -AXIS_SCALE <= a <= AXIS_SCALE,
            right_axis matches Some(a) ==> -AXIS_SCALE <= a <= AXIS_SCALE,
        ensures
            final(left_t).y == spec_paddle_y(*left, old(left_t).y as int, left_axis, arena.height as int),
            final(right_t).y == spec_paddle_y(*right, old(right_t).y as int, right_axis, arena.height as int),
            final(left_t).x == old(left_t).x,
            final(left_t).z == old(left_t).z,
            final(right_t).x == old(right_t).x,
            final(right_t).z == old(right_t).z,
    {
        if let Some(a) = left_axis {
            let step: i64 = paddle_step(left.speed, a);
            let lo: i64 = half(left.height);
            proof {
                lemma_fundamental_div_mod(left.height as int, 2);
            }
            let hi: i64 = arena.height - lo;
            left_t.y = clamp_i64(left_t.y + step, lo, hi);
        }
        if let Some(a) = right_axis {
            let step: i64 = paddle_step(right.speed, a);
            let lo: i64 = half(right.height);
            proof {
                lemma_fundamental_div_mod(right.height as int, 2);
            }
            let hi: i64 = arena.height - lo;
            right_t.y = clamp_i64(right_t.y + step, lo, hi);
        }
    }
}

/// The clamp invariant of paddle control: whenever an axis reading moves a
/// paddle, the updated vertical position keeps the whole paddle body inside
/// the arena, wherever the paddle started and however large the step.
pub proof fn lemma_paddle_update_in_bounds(p: Paddle, y: int, a: i64, arena_height: int)
    requires
        0 <= p.height <= arena_height,
    ensures
        p.height as int / 2 <= spec_paddle_y(p, y, Some(a), arena_height),
        spec_paddle_y(p, y, Some(a), arena_height) <= arena_height - p.height as int / 2,
{
    lemma_fundamental_div_mod(p.height as int, 2);
}

} // verus!
