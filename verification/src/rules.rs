//! The game's rules as mathematical step functions, over unbounded
//! integers. Each per-tick system's contract states its result as one of
//! these, so the whole tick has an exact mathematical description.

use vstd::prelude::*;
use crate::config::{
    BALL_BOUNCE_Y, BALL_RADIUS, BLOCK_HEIGHT, BLOCK_WIDTH, LEFT_EDGE_X, PLAYER_EDGE_Y,
    PLAYER_MOVE_SPEED, PLAYER_X, RESTART_DURATION_MS, RIGHT_WALL_X,
};

verus! {

/// Where the player paddle ends up after one tick: each held key moves it
/// by `PLAYER_MOVE_SPEED * delta_ms`, and each move is clamped at the
/// window edge it runs toward. Both keys held nearly cancel out (the up
/// move is applied first, then the down move), as the game has always
/// behaved; neither clamp applies to a paddle the key moves away from.
pub open spec fn player_y_after(y: int, up: bool, down: bool, delta_ms: int) -> int {
    let step = PLAYER_MOVE_SPEED * delta_ms;
    let edge = PLAYER_EDGE_Y as int;
    let y_up = if up {
        if y + step > edge {
            edge
        } else {
            y + step
        }
    } else {
        y
    };
    if down {
        if y_up - step < -edge {
            -edge
        } else {
            y_up - step
        }
    } else {
        y_up
    }
}

/// The ball is beyond the top or bottom bounce line, so its vertical
/// velocity flips this tick. The test is on position alone: a ball may
/// overlap the boundary for a tick before the flip moves it back.
pub open spec fn vertical_bounce(ball_y: int) -> bool {
    ball_y > BALL_BOUNCE_Y || ball_y < -BALL_BOUNCE_Y
}

/// The ball's vertical velocity after the wall check.
pub open spec fn ball_vy_after(ball_y: int, vy: int) -> int {
    if vertical_bounce(ball_y) {
        -vy
    } else {
        vy
    }
}

/// Axis-aligned overlap test against the player paddle, gated to the left
/// half of the window: the ball's leading edge has passed the paddle's
/// face, the ball has not yet left the window, and the vertical extents
/// overlap.
pub open spec fn player_paddle_hit(ball_x: int, ball_y: int, player_y: int) -> bool {
    &&& ball_x - BALL_RADIUS < PLAYER_X + BLOCK_WIDTH / 2
    &&& ball_x > LEFT_EDGE_X
    &&& ball_y - BALL_RADIUS < player_y + BLOCK_HEIGHT / 2
    &&& ball_y + BALL_RADIUS > player_y - BLOCK_HEIGHT / 2
}

/// The ball's trailing edge has reached the opponent's side. The opponent
/// is an implicit wall: there is no overlap test against the opponent
/// paddle, so this wall never misses.
pub open spec fn right_wall_hit(ball_x: int) -> bool {
    ball_x + BALL_RADIUS > RIGHT_WALL_X
}

/// The ball's horizontal velocity after the paddle and wall checks; the
/// player-paddle test is taken first and the two never flip together.
pub open spec fn ball_vx_after(ball_x: int, ball_y: int, player_y: int, vx: int) -> int {
    if player_paddle_hit(ball_x, ball_y, player_y) {
        -vx
    } else if right_wall_hit(ball_x) {
        -vx
    } else {
        vx
    }
}

/// Where the opponent paddle ends up after one tick: while the ball is on
/// the player's half (`ball_x < 0`) it stays put; otherwise it moves one
/// full speed increment toward the ball's y, with no deadband and no
/// clamping to the window.
pub open spec fn opponent_y_after(opp_y: int, ball_x: int, ball_y: int, delta_ms: int) -> int {
    if ball_x < 0 {
        opp_y
    } else if ball_y > opp_y {
        opp_y + PLAYER_MOVE_SPEED * delta_ms
    } else if ball_y < opp_y {
        opp_y - PLAYER_MOVE_SPEED * delta_ms
    } else {
        opp_y
    }
}

/// The restart countdown after one tick: elapsed time accumulates and
/// clamps at the duration (the timer is one-shot).
pub open spec fn timer_after(elapsed_ms: int, delta_ms: int) -> int {
    if elapsed_ms + delta_ms >= RESTART_DURATION_MS {
        RESTART_DURATION_MS as int
    } else {
        elapsed_ms + delta_ms
    }
}

/// The countdown has run its full duration.
pub open spec fn timer_finished(elapsed_ms: int) -> bool {
    elapsed_ms >= RESTART_DURATION_MS
}

} // verus!
