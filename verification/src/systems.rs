//! The per-tick systems and the dispatcher that runs the ones the current
//! phase calls for. Each system's contract states its exact effect through
//! the step functions of [`crate::rules`].

use vstd::prelude::*;
use crate::config::{
    BALL_BOUNCE_Y, BALL_RADIUS, BALL_SPEED_X, BALL_SPEED_Y, BLOCK_HEIGHT, BLOCK_WIDTH,
    DELTA_LIMIT_MS, LEFT_EDGE_X, PLAYER_EDGE_Y, PLAYER_MOVE_SPEED, PLAYER_X, POS_LIMIT,
    RESTART_DURATION_MS, RIGHT_WALL_X, VEL_LIMIT,
};
use crate::rules::{
    ball_vx_after, ball_vy_after, opponent_y_after, player_y_after, timer_after, timer_finished,
};
use crate::state::{Game, GameState, InputState, RestartTimer, Vec2};

verus! {

/// One integration step of a velocity component stays within the range
/// the position limits leave room for.
proof fn lemma_step_bound(v: int, d: int)
    requires
        -(VEL_LIMIT as int) <= v <= VEL_LIMIT as int,
        0 <= d <= DELTA_LIMIT_MS as int,
    ensures
        -(VEL_LIMIT as int) * (DELTA_LIMIT_MS as int) <= v * d
            <= (VEL_LIMIT as int) * (DELTA_LIMIT_MS as int),
{
    assert(-(VEL_LIMIT as int) * (DELTA_LIMIT_MS as int) <= v * d
        <= (VEL_LIMIT as int) * (DELTA_LIMIT_MS as int)) by (nonlinear_arith)
        requires
            -(VEL_LIMIT as int) <= v <= VEL_LIMIT as int,
            0 <= d <= DELTA_LIMIT_MS as int,
    ;
}

impl Game {
    /// Moves the player paddle by one tick of held-key input: each held
    /// key moves it by `PLAYER_MOVE_SPEED * delta_ms`, clamped to the
    /// window, up applied before down. Nothing else changes.
    pub fn player_movement(&mut self, up_pressed: bool, down_pressed: bool, delta_ms: u32)
        requires
            old(self).player_in_bounds(),
            delta_ms <= DELTA_LIMIT_MS,
        ensures
            final(self).player_y as int == player_y_after(
                old(self).player_y as int,
                up_pressed,
                down_pressed,
                delta_ms as int,
            ),
            final(self).player_in_bounds(),
            *final(self) == (Game { player_y: final(self).player_y, ..*old(self) }),
    {
        let step: i64 = PLAYER_MOVE_SPEED * (delta_ms as i64);
        if up_pressed {
            self.player_y = self.player_y + step;
            if self.player_y > PLAYER_EDGE_Y {
                self.player_y = PLAYER_EDGE_Y;
            }
        }
        if down_pressed {
            self.player_y = self.player_y - step;
            if self.player_y < -PLAYER_EDGE_Y {
                self.player_y = -PLAYER_EDGE_Y;
            }
        }
    }

    /// Moves the ball by one tick: flips the vertical velocity beyond the
    /// top or bottom bounce line, flips the horizontal velocity on a
    /// player-paddle hit or (else) on the opponent's implicit wall, then
    /// integrates the position with the updated velocity. Bounces only
    /// flip signs, so the squared speed is unchanged. Nothing else
    /// changes.
    pub fn ball_movement(&mut self, delta_ms: u32)
        requires
            old(self).ball_in_range(),
            old(self).vel_in_range(),
            -POS_LIMIT <= old(self).player_y <= POS_LIMIT,
            delta_ms <= DELTA_LIMIT_MS,
        ensures
            final(self).ball_vel.y as int == ball_vy_after(
                old(self).ball_pos.y as int,
                old(self).ball_vel.y as int,
            ),
            final(self).ball_vel.x as int == ball_vx_after(
                old(self).ball_pos.x as int,
                old(self).ball_pos.y as int,
                old(self).player_y as int,
                old(self).ball_vel.x as int,
            ),
            final(self).ball_pos.x as int == old(self).ball_pos.x as int
                + final(self).ball_vel.x as int * delta_ms as int,
            final(self).ball_pos.y as int == old(self).ball_pos.y as int
                + final(self).ball_vel.y as int * delta_ms as int,
            final(self).ball_vel.x as int * final(self).ball_vel.x as int
                + final(self).ball_vel.y as int * final(self).ball_vel.y as int
                == old(self).ball_vel.x as int * old(self).ball_vel.x as int
                    + old(self).ball_vel.y as int * old(self).ball_vel.y as int,
            final(self).vel_in_range(),
            *final(self) == (Game {
                ball_pos: final(self).ball_pos,
                ball_vel: final(self).ball_vel,
                ..*old(self)
            }),
    {
        let bx = self.ball_pos.x;
        let by = self.ball_pos.y;
        if by > BALL_BOUNCE_Y {
            self.ball_vel.y = -self.ball_vel.y;
        } else if by < -BALL_BOUNCE_Y {
            self.ball_vel.y = -self.ball_vel.y;
        }
        if bx - BALL_RADIUS < PLAYER_X + BLOCK_WIDTH / 2 && bx > LEFT_EDGE_X
            && by - BALL_RADIUS < self.player_y + BLOCK_HEIGHT / 2
            && by + BALL_RADIUS > self.player_y - BLOCK_HEIGHT / 2 {
            self.ball_vel.x = -self.ball_vel.x;
        } else if bx + BALL_RADIUS > RIGHT_WALL_X {
            self.ball_vel.x = -self.ball_vel.x;
        }
        let d = delta_ms as i64;
        proof {
            lemma_step_bound(self.ball_vel.x as int, d as int);
            lemma_step_bound(self.ball_vel.y as int, d as int);
            let vx0 = old(self).ball_vel.x as int;
            let vy0 = old(self).ball_vel.y as int;
            assert((-vx0) * (-vx0) == vx0 * vx0) by (nonlinear_arith);
            assert((-vy0) * (-vy0) == vy0 * vy0) by (nonlinear_arith);
        }
        self.ball_pos.x = self.ball_pos.x + self.ball_vel.x * d;
        self.ball_pos.y = self.ball_pos.y + self.ball_vel.y * d;
    }

    /// Moves the opponent paddle by one tick: idle while the ball is on
    /// the player's half, otherwise one full speed increment toward the
    /// ball's y, unclamped. Nothing else changes.
    pub fn opponent_movement(&mut self, delta_ms: u32)
        requires
            old(self).opponent_in_range(),
            delta_ms <= DELTA_LIMIT_MS,
        ensures
            final(self).opponent_y as int == opponent_y_after(
                old(self).opponent_y as int,
                old(self).ball_pos.x as int,
                old(self).ball_pos.y as int,
                delta_ms as int,
            ),
            *final(self) == (Game { opponent_y: final(self).opponent_y, ..*old(self) }),
    {
        if self.ball_pos.x < 0 {
            return ;
        }
        let step: i64 = PLAYER_MOVE_SPEED * (delta_ms as i64);
        if self.ball_pos.y > self.opponent_y {
            self.opponent_y = self.opponent_y + step;
        } else if self.ball_pos.y < self.opponent_y {
            self.opponent_y = self.opponent_y - step;
        }
    }

    /// Starts a round on a start press: the phase becomes in-progress and
    /// the restart countdown is reset. Entities keep the placement they
    /// had. Without a press nothing changes.
    pub fn game_start(&mut self, start_pressed: bool)
        ensures
            start_pressed ==> *final(self) == (Game {
                state: GameState::InProgress,
                restart_timer: (RestartTimer { elapsed_ms: 0 }),
                ..*old(self)
            }),
            !start_pressed ==> *final(self) == *old(self),
    {
        if start_pressed {
            self.state = GameState::InProgress;
            self.restart_timer.elapsed_ms = 0;
        }
    }

    /// Ends the round when the ball has left the window on the player's
    /// side: the phase becomes game-over exactly when `ball_pos.x` is
    /// below [`LEFT_EDGE_X`]. The ball leaving on the opponent's side
    /// never ends a round. Nothing else changes.
    pub fn game_over(&mut self)
        ensures
            old(self).ball_pos.x < LEFT_EDGE_X ==> *final(self) == (Game {
                state: GameState::GameOver,
                ..*old(self)
            }),
            old(self).ball_pos.x >= LEFT_EDGE_X ==> *final(self) == *old(self),
    {
        if self.ball_pos.x < LEFT_EDGE_X {
            self.state = GameState::GameOver;
        }
    }

    /// Runs the game-over countdown by one tick. While the countdown
    /// still runs, only its elapsed time changes. The tick that completes
    /// the full duration puts every entity back at its initial placement,
    /// restores the initial ball velocity and returns the phase to
    /// waiting-to-start, whatever the placement was before.
    pub fn restart_game(&mut self, delta_ms: u32)
        requires
            old(self).restart_timer.elapsed_ms <= RESTART_DURATION_MS,
            delta_ms <= DELTA_LIMIT_MS,
        ensures
            final(self).restart_timer.elapsed_ms as int == timer_after(
                old(self).restart_timer.elapsed_ms as int,
                delta_ms as int,
            ),
            timer_finished(final(self).restart_timer.elapsed_ms as int) ==> *final(self)
                == (Game {
                state: GameState::WaitingToStart,
                ball_pos: (Vec2 { x: 0, y: 0 }),
                ball_vel: (Vec2 { x: BALL_SPEED_X, y: BALL_SPEED_Y }),
                player_y: 0,
                opponent_y: 0,
                restart_timer: (RestartTimer { elapsed_ms: RESTART_DURATION_MS }),
            }),
            !timer_finished(final(self).restart_timer.elapsed_ms as int) ==> *final(self)
                == (Game { restart_timer: final(self).restart_timer, ..*old(self) }),
    {
        let sum = self.restart_timer.elapsed_ms + delta_ms;
        self.restart_timer.elapsed_ms = if sum >= RESTART_DURATION_MS {
            RESTART_DURATION_MS
        } else {
            sum
        };
        if self.restart_timer.elapsed_ms >= RESTART_DURATION_MS {
            self.player_y = 0;
            self.opponent_y = 0;
            self.ball_pos = Vec2 { x: 0, y: 0 };
            self.ball_vel = Vec2 { x: BALL_SPEED_X, y: BALL_SPEED_Y };
            self.state = GameState::WaitingToStart;
        }
    }

    /// One fixed time step: runs exactly the systems the current phase
    /// calls for. Waiting-to-start runs only the start check; in-progress
    /// runs player movement, ball physics, opponent tracking and loss
    /// detection, in that order; game-over runs only the restart
    /// countdown. The player paddle is in bounds and the countdown within
    /// its duration after every tick.
    pub fn tick(&mut self, input: InputState, delta_ms: u32)
        requires
            old(self).wf(),
            delta_ms <= DELTA_LIMIT_MS,
        ensures
            final(self).player_in_bounds(),
            final(self).restart_timer.elapsed_ms <= RESTART_DURATION_MS,
            final(self).vel_in_range(),
            old(self).state is WaitingToStart ==> {
                &&& input.start_pressed ==> *final(self) == (Game {
                    state: GameState::InProgress,
                    restart_timer: (RestartTimer { elapsed_ms: 0 }),
                    ..*old(self)
                })
                &&& !input.start_pressed ==> *final(self) == *old(self)
            },
            old(self).state is InProgress ==> {
                &&& final(self).player_y as int == player_y_after(
                    old(self).player_y as int,
                    input.up_pressed,
                    input.down_pressed,
                    delta_ms as int,
                )
                &&& final(self).ball_vel.y as int == ball_vy_after(
                    old(self).ball_pos.y as int,
                    old(self).ball_vel.y as int,
                )
                &&& final(self).ball_vel.x as int == ball_vx_after(
                    old(self).ball_pos.x as int,
                    old(self).ball_pos.y as int,
                    final(self).player_y as int,
                    old(self).ball_vel.x as int,
                )
                &&& final(self).ball_pos.x as int == old(self).ball_pos.x as int
                    + final(self).ball_vel.x as int * delta_ms as int
                &&& final(self).ball_pos.y as int == old(self).ball_pos.y as int
                    + final(self).ball_vel.y as int * delta_ms as int
                &&& final(self).opponent_y as int == opponent_y_after(
                    old(self).opponent_y as int,
                    final(self).ball_pos.x as int,
                    final(self).ball_pos.y as int,
                    delta_ms as int,
                )
                &&& final(self).state == (if final(self).ball_pos.x < LEFT_EDGE_X {
                    GameState::GameOver
                } else {
                    GameState::InProgress
                })
                &&& final(self).restart_timer == old(self).restart_timer
                &&& final(self).ball_vel.x as int * final(self).ball_vel.x as int
                    + final(self).ball_vel.y as int * final(self).ball_vel.y as int
                    == old(self).ball_vel.x as int * old(self).ball_vel.x as int
                        + old(self).ball_vel.y as int * old(self).ball_vel.y as int
            },
            old(self).state is GameOver ==> {
                &&& final(self).restart_timer.elapsed_ms as int == timer_after(
                    old(self).restart_timer.elapsed_ms as int,
                    delta_ms as int,
                )
                &&& timer_finished(final(self).restart_timer.elapsed_ms as int) ==> *final(self)
                    == (Game {
                    state: GameState::WaitingToStart,
                    ball_pos: (Vec2 { x: 0, y: 0 }),
                    ball_vel: (Vec2 { x: BALL_SPEED_X, y: BALL_SPEED_Y }),
                    player_y: 0,
                    opponent_y: 0,
                    restart_timer: (RestartTimer { elapsed_ms: RESTART_DURATION_MS }),
                })
                &&& !timer_finished(final(self).restart_timer.elapsed_ms as int) ==> *final(self)
                    == (Game { restart_timer: final(self).restart_timer, ..*old(self) })
            },
    {
        match self.state {
            GameState::WaitingToStart => {
                self.game_start(input.start_pressed);
            },
            GameState::InProgress => {
                self.player_movement(input.up_pressed, input.down_pressed, delta_ms);
                self.ball_movement(delta_ms);
                self.opponent_movement(delta_ms);
                self.game_over();
            },
            GameState::GameOver => {
                self.restart_game(delta_ms);
            },
        }
    }
}

} // verus!
