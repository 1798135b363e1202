//! The game's state: the three-state machine, the entities (ball, player
//! paddle, opponent paddle) and the one-shot restart countdown.

use vstd::prelude::*;
use crate::config::{
    BALL_SPEED_X, BALL_SPEED_Y, PLAYER_EDGE_Y, POS_LIMIT, RESTART_DURATION_MS, VEL_LIMIT,
};

verus! {

/// A 2-D vector in fixed-point world coordinates (milli-units for
/// positions, world units per second for velocities).
#[derive(Clone, Copy, Debug, PartialEq, Eq, Structural)]
pub struct Vec2 {
    pub x: i64,
    pub y: i64,
}

/// The phase of the game loop. Exactly one phase is active at a time and
/// decides which systems a tick runs.
#[derive(Clone, Copy, Debug, PartialEq, Eq, Structural)]
pub enum GameState {
    /// Initial phase: nothing moves until a start press.
    WaitingToStart,
    /// A round is being played: movement, physics, AI and loss detection run.
    InProgress,
    /// The ball left the player's side: only the restart countdown runs.
    GameOver,
}

/// The one-shot countdown that ends the game-over phase. It is reset when
/// a round starts and ticked only while the game is over; once its elapsed
/// time reaches [`RESTART_DURATION_MS`] it stays there.
#[derive(Clone, Copy, Debug, PartialEq, Eq, Structural)]
pub struct RestartTimer {
    /// Accumulated time, in milliseconds, clamped to [`RESTART_DURATION_MS`].
    pub elapsed_ms: u32,
}

/// The input sampled for one tick.
#[derive(Clone, Copy, Debug, PartialEq, Eq, Structural)]
pub struct InputState {
    /// The move-up key is held.
    pub up_pressed: bool,
    /// The move-down key is held.
    pub down_pressed: bool,
    /// The start key went down this tick (press edge, not held state).
    pub start_pressed: bool,
}

/// The whole game: phase, entity placement and the restart countdown.
/// Paddle x positions are fixed ([`crate::config::PLAYER_X`] and
/// [`crate::config::OPPONENT_X`]); only the paddles' y coordinates move.
#[derive(Clone, Copy, Debug, PartialEq, Eq, Structural)]
pub struct Game {
    pub state: GameState,
    /// Ball centre, in milli-units.
    pub ball_pos: Vec2,
    /// Ball velocity, in world units per second.
    pub ball_vel: Vec2,
    /// Player paddle centre y, in milli-units.
    pub player_y: i64,
    /// Opponent paddle centre y, in milli-units.
    pub opponent_y: i64,
    pub restart_timer: RestartTimer,
}

/// The placement every round starts from and every restart returns to:
/// ball at the centre with the fixed initial velocity, both paddles
/// centred vertically.
pub open spec fn initial_game() -> Game {
    Game {
        state: GameState::WaitingToStart,
        ball_pos: Vec2 { x: 0, y: 0 },
        ball_vel: Vec2 { x: BALL_SPEED_X, y: BALL_SPEED_Y },
        player_y: 0,
        opponent_y: 0,
        restart_timer: RestartTimer { elapsed_ms: 0 },
    }
}

impl Game {
    /// The player paddle never leaves the window vertically.
    pub open spec fn player_in_bounds(self) -> bool {
        -PLAYER_EDGE_Y <= self.player_y <= PLAYER_EDGE_Y
    }

    /// The ball's coordinates are far from the 64-bit edge, so one update
    /// step cannot overflow. Any state a real game reaches is tiny
    /// against these limits.
    pub open spec fn ball_in_range(self) -> bool {
        &&& -POS_LIMIT <= self.ball_pos.x <= POS_LIMIT
        &&& -POS_LIMIT <= self.ball_pos.y <= POS_LIMIT
    }

    /// The ball's velocity components are far from the 64-bit edge.
    pub open spec fn vel_in_range(self) -> bool {
        &&& -VEL_LIMIT <= self.ball_vel.x <= VEL_LIMIT
        &&& -VEL_LIMIT <= self.ball_vel.y <= VEL_LIMIT
    }

    /// The opponent paddle's coordinate is far from the 64-bit edge.
    pub open spec fn opponent_in_range(self) -> bool {
        -POS_LIMIT <= self.opponent_y <= POS_LIMIT
    }

    /// All coordinates and velocities are far from the 64-bit edge.
    pub open spec fn entities_in_range(self) -> bool {
        &&& self.ball_in_range()
        &&& self.vel_in_range()
        &&& self.opponent_in_range()
    }

    /// Well-formedness: established at startup and preserved by every tick.
    pub open spec fn wf(self) -> bool {
        &&& self.player_in_bounds()
        &&& self.entities_in_range()
        &&& self.restart_timer.elapsed_ms <= RESTART_DURATION_MS
    }

    /// Builds the startup state: waiting to start, with every entity at
    /// its initial placement.
    pub fn init() -> (g: Game)
        ensures
            g == initial_game(),
            g.wf(),
    {
        Game {
            state: GameState::WaitingToStart,
            ball_pos: Vec2 { x: 0, y: 0 },
            ball_vel: Vec2 { x: BALL_SPEED_X, y: BALL_SPEED_Y },
            player_y: 0,
            opponent_y: 0,
            restart_timer: RestartTimer { elapsed_ms: 0 },
        }
    }
}

} // verus!
