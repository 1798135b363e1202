//! The state machine: starting a round, losing it, and the restart
//! countdown that puts everything back in place.

use pong::config::{BALL_SPEED_X, BALL_SPEED_Y, RESTART_DURATION_MS};
use pong::state::{Game, GameState, InputState, RestartTimer, Vec2};

fn idle() -> InputState {
    InputState { up_pressed: false, down_pressed: false, start_pressed: false }
}

fn start_press() -> InputState {
    InputState { up_pressed: false, down_pressed: false, start_pressed: true }
}

#[test]
fn initial_placement() {
    let g = Game::init();
    assert_eq!(g.state, GameState::WaitingToStart);
    assert_eq!(g.ball_pos, Vec2 { x: 0, y: 0 });
    assert_eq!(g.ball_vel, Vec2 { x: BALL_SPEED_X, y: BALL_SPEED_Y });
    assert_eq!(g.player_y, 0);
    assert_eq!(g.opponent_y, 0);
    assert_eq!(g.restart_timer.elapsed_ms, 0);
}

#[test]
fn start_press_begins_round_and_resets_timer() {
    let mut g = Game::init();
    g.restart_timer = RestartTimer { elapsed_ms: 700 };
    g.tick(start_press(), 16);
    assert_eq!(g.state, GameState::InProgress);
    assert_eq!(g.restart_timer.elapsed_ms, 0);
}

#[test]
fn start_does_not_reposition_entities() {
    let mut g = Game::init();
    g.ball_pos = Vec2 { x: 12_000, y: -7_000 };
    g.player_y = 50_000;
    g.opponent_y = -30_000;
    g.tick(start_press(), 16);
    assert_eq!(g.state, GameState::InProgress);
    assert_eq!(g.ball_pos, Vec2 { x: 12_000, y: -7_000 });
    assert_eq!(g.player_y, 50_000);
    assert_eq!(g.opponent_y, -30_000);
}

#[test]
fn waiting_ignores_everything_but_start() {
    let mut g = Game::init();
    let input = InputState { up_pressed: true, down_pressed: false, start_pressed: false };
    g.tick(input, 1_000);
    assert_eq!(g, Game::init());
}

#[test]
fn ball_past_left_edge_ends_round() {
    let mut g = Game::init();
    g.state = GameState::InProgress;
    g.ball_pos = Vec2 { x: -111_000, y: 150_000 };
    g.ball_vel = Vec2 { x: -250, y: 250 };
    g.tick(idle(), 1_000);
    assert_eq!(g.ball_pos.x, -361_000);
    assert_eq!(g.state, GameState::GameOver);
}

#[test]
fn ball_exactly_at_left_edge_keeps_round_running() {
    let mut g = Game::init();
    g.state = GameState::InProgress;
    g.ball_pos = Vec2 { x: -110_000, y: 150_000 };
    g.ball_vel = Vec2 { x: -250, y: 250 };
    g.tick(idle(), 1_000);
    assert_eq!(g.ball_pos.x, -360_000);
    assert_eq!(g.state, GameState::InProgress);
}

#[test]
fn game_over_freezes_entities() {
    let mut g = Game::init();
    g.state = GameState::GameOver;
    g.ball_pos = Vec2 { x: -361_000, y: 40_000 };
    g.ball_vel = Vec2 { x: -250, y: 250 };
    g.player_y = 120_000;
    g.opponent_y = -90_000;
    let input = InputState { up_pressed: true, down_pressed: false, start_pressed: true };
    g.tick(input, 400);
    assert_eq!(g.state, GameState::GameOver);
    assert_eq!(g.ball_pos, Vec2 { x: -361_000, y: 40_000 });
    assert_eq!(g.ball_vel, Vec2 { x: -250, y: 250 });
    assert_eq!(g.player_y, 120_000);
    assert_eq!(g.opponent_y, -90_000);
    assert_eq!(g.restart_timer.elapsed_ms, 400);
}

#[test]
fn restart_fires_after_one_time_unit() {
    let mut g = Game::init();
    g.state = GameState::GameOver;
    g.ball_pos = Vec2 { x: -400_000, y: 12_345 };
    g.ball_vel = Vec2 { x: -250, y: -250 };
    g.player_y = -60_000;
    g.opponent_y = 777_000;
    g.tick(idle(), 400);
    g.tick(idle(), 400);
    assert_eq!(g.state, GameState::GameOver);
    g.tick(idle(), 200);
    assert_eq!(g.state, GameState::WaitingToStart);
    assert_eq!(g.ball_pos, Vec2 { x: 0, y: 0 });
    assert_eq!(g.ball_vel, Vec2 { x: BALL_SPEED_X, y: BALL_SPEED_Y });
    assert_eq!(g.player_y, 0);
    assert_eq!(g.opponent_y, 0);
    assert_eq!(g.restart_timer.elapsed_ms, RESTART_DURATION_MS);
}

#[test]
fn restart_does_not_fire_early() {
    let mut g = Game::init();
    g.state = GameState::GameOver;
    g.player_y = -60_000;
    g.tick(idle(), 999);
    assert_eq!(g.state, GameState::GameOver);
    assert_eq!(g.player_y, -60_000);
    assert_eq!(g.restart_timer.elapsed_ms, 999);
}

#[test]
fn restart_placement_is_independent_of_prior_placement() {
    let mut a = Game::init();
    a.state = GameState::GameOver;
    a.ball_pos = Vec2 { x: -500_000, y: 230_000 };
    a.ball_vel = Vec2 { x: -250, y: 250 };
    a.player_y = 190_000;
    a.opponent_y = -444_000;
    let mut b = Game::init();
    b.state = GameState::GameOver;
    b.ball_pos = Vec2 { x: -361_000, y: -10_000 };
    b.ball_vel = Vec2 { x: 250, y: -250 };
    b.player_y = -190_000;
    b.opponent_y = 1_000;
    a.tick(idle(), 1_000);
    b.tick(idle(), 1_000);
    assert_eq!(a, b);
    assert_eq!(a.ball_pos, Vec2 { x: 0, y: 0 });
    assert_eq!(a.ball_vel, Vec2 { x: BALL_SPEED_X, y: BALL_SPEED_Y });
    assert_eq!(a.player_y, 0);
    assert_eq!(a.opponent_y, 0);
}

#[test]
fn timer_clamps_at_duration() {
    let mut g = Game::init();
    g.state = GameState::GameOver;
    g.restart_timer = RestartTimer { elapsed_ms: 900 };
    g.tick(idle(), 400);
    assert_eq!(g.restart_timer.elapsed_ms, RESTART_DURATION_MS);
    assert_eq!(g.state, GameState::WaitingToStart);
}

#[test]
fn full_round_loop() {
    let mut g = Game::init();
    g.tick(start_press(), 16);
    assert_eq!(g.state, GameState::InProgress);
    // Send the ball out on the player's side and wait out the countdown.
    g.ball_pos = Vec2 { x: -200_000, y: 0 };
    g.ball_vel = Vec2 { x: -250, y: 250 };
    g.player_y = 150_000;
    g.tick(idle(), 1_000);
    assert_eq!(g.state, GameState::GameOver);
    g.tick(idle(), 1_000);
    assert_eq!(g.state, GameState::WaitingToStart);
    assert_eq!(g.ball_pos, Vec2 { x: 0, y: 0 });
    g.tick(start_press(), 16);
    assert_eq!(g.state, GameState::InProgress);
    assert_eq!(g.restart_timer.elapsed_ms, 0);
}
