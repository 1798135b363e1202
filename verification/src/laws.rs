//! The gameplay laws, proved once and for all over the step functions of
//! [`crate::rules`] that every tick's contract is stated with.

use vstd::prelude::*;
use crate::config::{PLAYER_EDGE_Y, PLAYER_MOVE_SPEED};
use crate::rules::{ball_vx_after, ball_vy_after, opponent_y_after, player_y_after};

verus! {

/// Bounces only flip the sign of a velocity component, never its size:
/// across any one tick's wall and paddle checks the squared speed
/// magnitude of the ball is invariant.
pub proof fn lemma_bounce_preserves_speed(ball_x: int, ball_y: int, player_y: int, vx: int, vy: int)
    ensures
        ball_vx_after(ball_x, ball_y, player_y, vx) * ball_vx_after(ball_x, ball_y, player_y, vx)
            + ball_vy_after(ball_y, vy) * ball_vy_after(ball_y, vy) == vx * vx + vy * vy,
{
    assert((-vx) * (-vx) == vx * vx) by (nonlinear_arith);
    assert((-vy) * (-vy) == vy * vy) by (nonlinear_arith);
}

/// However long the keys are held and whatever the time step, a player
/// paddle inside the window stays inside the window: its y stays within
/// `[-PLAYER_EDGE_Y, PLAYER_EDGE_Y]`.
pub proof fn lemma_player_stays_in_bounds(y: int, up: bool, down: bool, delta_ms: int)
    requires
        -PLAYER_EDGE_Y <= y <= PLAYER_EDGE_Y,
        0 <= delta_ms,
    ensures
        -PLAYER_EDGE_Y <= player_y_after(y, up, down, delta_ms) <= PLAYER_EDGE_Y,
{
    assert(0 <= PLAYER_MOVE_SPEED * delta_ms) by (nonlinear_arith)
        requires
            0 <= delta_ms,
    ;
}

/// The opponent's whole behaviour: it never moves while the ball is on
/// the player's half; once the ball is on its half it moves by exactly
/// `PLAYER_MOVE_SPEED * delta_ms` toward the ball's y, and stands still
/// when the two already agree.
pub proof fn lemma_opponent_rules(opp_y: int, ball_x: int, ball_y: int, delta_ms: int)
    ensures
        ball_x < 0 ==> opponent_y_after(opp_y, ball_x, ball_y, delta_ms) == opp_y,
        ball_x >= 0 && ball_y > opp_y ==> opponent_y_after(opp_y, ball_x, ball_y, delta_ms)
            == opp_y + PLAYER_MOVE_SPEED * delta_ms,
        ball_x >= 0 && ball_y < opp_y ==> opponent_y_after(opp_y, ball_x, ball_y, delta_ms)
            == opp_y - PLAYER_MOVE_SPEED * delta_ms,
        ball_y == opp_y ==> opponent_y_after(opp_y, ball_x, ball_y, delta_ms) == opp_y,
{
}

} // verus!
