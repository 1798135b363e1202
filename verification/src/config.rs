//! Fixed geometry and speed configuration.
//!
//! All positions in this crate are fixed-point integers: one world unit is
//! 1000 position ticks ("milli-units"). Speeds are in world units per
//! second and time steps in milliseconds, so one update moves a body by
//! exactly `speed * delta_ms` milli-units, with no rounding.

use vstd::prelude::*;

verus! {

/// Window width, in milli-units (720 world units).
pub const WINDOW_WIDTH: i64 = 720_000;

/// Window height, in milli-units (480 world units).
pub const WINDOW_HEIGHT: i64 = 480_000;

/// Paddle block height, in milli-units (100 world units).
pub const BLOCK_HEIGHT: i64 = 100_000;

/// Paddle block width, in milli-units (10 world units).
pub const BLOCK_WIDTH: i64 = 10_000;

/// Ball radius, in milli-units (10 world units).
pub const BALL_RADIUS: i64 = 10_000;

/// Speed of both paddles, in world units per second.
pub const PLAYER_MOVE_SPEED: i64 = 500;

/// Initial horizontal ball velocity, in world units per second.
pub const BALL_SPEED_X: i64 = 250;

/// Initial vertical ball velocity, in world units per second.
pub const BALL_SPEED_Y: i64 = 250;

/// How long the game-over screen lasts before everything is reset, in
/// milliseconds.
pub const RESTART_DURATION_MS: u32 = 1_000;

/// Highest y the centre of a paddle may reach: the paddle then touches the
/// top of the window. Also the negated lowest y.
/// Equals `(WINDOW_HEIGHT - BLOCK_HEIGHT) / 2`.
pub const PLAYER_EDGE_Y: i64 = 190_000;

/// Fixed x position of the player paddle's centre (left edge of the window).
/// Equals `-(WINDOW_WIDTH - BLOCK_WIDTH) / 2`.
pub const PLAYER_X: i64 = -355_000;

/// Fixed x position of the opponent paddle's centre (right edge of the window).
/// Equals `(WINDOW_WIDTH - BLOCK_WIDTH) / 2`.
pub const OPPONENT_X: i64 = 355_000;

/// Ball y beyond which (in either sign) the vertical velocity flips.
/// Equals `(WINDOW_HEIGHT - BALL_RADIUS) / 2`.
pub const BALL_BOUNCE_Y: i64 = 235_000;

/// Ball x below which the ball has left the window on the player's side
/// and the round is lost. Equals `-WINDOW_WIDTH / 2`.
pub const LEFT_EDGE_X: i64 = -360_000;

/// Ball x at which the ball's right edge reaches the opponent's wall: the
/// right window edge pulled in by one paddle width.
/// Equals `WINDOW_WIDTH / 2 - BLOCK_WIDTH`.
pub const RIGHT_WALL_X: i64 = 350_000;

/// Largest time step a single tick accepts, in milliseconds. A bound is
/// needed only so that position updates stay inside 64-bit arithmetic;
/// real fixed time steps are a few milliseconds.
pub const DELTA_LIMIT_MS: u32 = 1_000_000;

/// Largest magnitude a ball velocity component may have, in world units
/// per second, so that one update fits in 64 bits.
pub const VEL_LIMIT: i64 = 1_000_000_000;

/// Largest magnitude a coordinate may have, in milli-units, so that one
/// update fits in 64 bits.
pub const POS_LIMIT: i64 = 1_000_000_000_000_000;

} // verus!
