//! Core simulation of a two-paddle ball-bouncing game.
//!
//! Positions and sizes are measured in milliunits (thousandths of a world
//! unit), time in milliseconds, and velocities in milliunits per millisecond
//! (numerically equal to world units per second).  All quantities are plain
//! integers, so every rule of the simulation is stated and proved exactly.
//!
//! The crate covers the per-tick update logic only: paddle control, ball
//! motion, collision resolution and scoring.  Rendering, asset loading,
//! window management and raw input devices are external collaborators that
//! hand the simulation elapsed time and axis values and read back entity
//! positions and score text.

pub mod pong;
pub mod config;
pub mod paddle;
pub mod ball_motion;
pub mod ball_collision;
pub mod score;
pub mod victory;
