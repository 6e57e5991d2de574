//! Configuration resources, loaded once at session start and immutable for
//! the session.  All lengths are milliunits, speeds milliunits per
//! millisecond, times milliseconds.  Each type's `Default` supplies the
//! documented geometry when no configuration source is present.

use vstd::prelude::*;
use crate::pong::{DIM_LIMIT, VEL_LIMIT};

verus! {

/// The play field: an immutable rectangle.
#[derive(Clone, Copy, Debug, PartialEq, Eq, Structural)]
pub struct ArenaConfig {
    pub height: i64,
    pub width: i64,
}

impl Default for ArenaConfig {
    /// A 100 x 100 unit arena.
    fn default() -> (c: ArenaConfig)
        ensures
            c.height == 100_000,
            c.width == 100_000,
    {
        ArenaConfig { height: 100_000, width: 100_000 }
    }
}

/// Initial ball velocity and radius, and the post-score freeze window.
#[derive(Clone, Copy, Debug, PartialEq, Eq, Structural)]
pub struct BallConfig {
    pub velocity_x: i64,
    pub velocity_y: i64,
    pub radius: i64,
    pub score_timeout_ms: u64,
}

impl Default for BallConfig {
    /// Velocity (75, 50) units per second, radius 2.5 units, and no freeze
    /// window.
    fn default() -> (c: BallConfig)
        ensures
            c.velocity_x == 75,
            c.velocity_y == 50,
            c.radius == 2_500,
            c.score_timeout_ms == 0,
    {
        BallConfig { velocity_x: 75, velocity_y: 50, radius: 2_500, score_timeout_ms: 0 }
    }
}

/// Geometry and speed of one paddle.
#[derive(Clone, Copy, Debug, PartialEq, Eq, Structural)]
pub struct PaddleConfig {
    pub height: i64,
    pub width: i64,
    pub speed: i64,
}

impl Default for PaddleConfig {
    /// A 2.5 x 15 unit paddle moving at 75 units per second.
    fn default() -> (c: PaddleConfig)
        ensures
            c.height == 15_000,
            c.width == 2_500,
            c.speed == 75,
    {
        PaddleConfig { height: 15_000, width: 2_500, speed: 75 }
    }
}

/// The two paddle configurations, one per side.
#[derive(Clone, Copy, Debug, PartialEq, Eq, Structural)]
pub struct PaddlesConfig {
    pub left: PaddleConfig,
    pub right: PaddleConfig,
}

impl Default for PaddlesConfig {
    fn default() -> (c: PaddlesConfig)
        ensures
            c.left == (PaddleConfig { height: 15_000, width: 2_500, speed: 75 }),
            c.right == (PaddleConfig { height: 15_000, width: 2_500, speed: 75 }),
    {
        PaddlesConfig { left: PaddleConfig::default(), right: PaddleConfig::default() }
    }
}

/// The whole configuration of a session.
#[derive(Clone, Copy, Debug, PartialEq, Eq, Structural)]
pub struct PongConfig {
    pub arena: ArenaConfig,
    pub ball: BallConfig,
    pub paddles: PaddlesConfig,
}

impl PongConfig {
    /// A configuration the simulation can start from: a non-empty arena
    /// within the machine limits, a ball that fits between the horizontal
    /// walls, velocities and speeds within the machine limits, and paddles
    /// no taller than the arena.
    pub open spec fn wf(self) -> bool {
        &&& 0 < self.arena.width <= DIM_LIMIT
        &&& 0 < self.arena.height <= DIM_LIMIT
        &&& 0 <= self.ball.radius <= DIM_LIMIT
        &&& 2 * self.ball.radius < self.arena.height
        &&& -VEL_LIMIT <= self.ball.velocity_x <= VEL_LIMIT
        &&& -VEL_LIMIT <= self.ball.velocity_y <= VEL_LIMIT
        &&& 0 <= self.paddles.left.width <= DIM_LIMIT
        &&& 0 <= self.paddles.left.height <= self.arena.height
        &&& 0 <= self.paddles.left.speed <= VEL_LIMIT
        &&& 0 <= self.paddles.right.width <= DIM_LIMIT
        &&& 0 <= self.paddles.right.height <= self.arena.height
        &&& 0 <= self.paddles.right.speed <= VEL_LIMIT
    }
}

impl Default for PongConfig {
    fn default() -> (c: PongConfig)
        ensures
            c.arena == (ArenaConfig { height: 100_000, width: 100_000 }),
            c.ball == (BallConfig {
                velocity_x: 75,
                velocity_y: 50,
                radius: 2_500,
                score_timeout_ms: 0,
            }),
            c.paddles.left == (PaddleConfig { height: 15_000, width: 2_500, speed: 75 }),
            c.paddles.right == (PaddleConfig { height: 15_000, width: 2_500, speed: 75 }),
    {
        PongConfig {
            arena: ArenaConfig::default(),
            ball: BallConfig::default(),
            paddles: PaddlesConfig::default(),
        }
    }
}

} // verus!
