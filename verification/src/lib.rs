//! Core rules of a two-paddle arcade game: a three-state game loop
//! (waiting to start, in progress, game over), exact fixed-point ball
//! physics with wall and paddle bounces, clamped player paddle movement,
//! a bang-bang tracking opponent, and a one-shot restart countdown.
//!
//! Positions are held in thousandths of a world unit, speeds in world
//! units per second, and time steps in milliseconds, so every update is
//! exact integer arithmetic. The windowing, rendering and input layer
//! around these rules lives outside the library and feeds each tick with
//! plain input flags and an elapsed time.

pub mod config;
pub mod laws;
pub mod rules;
pub mod state;
pub mod systems;
