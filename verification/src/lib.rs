//! The simulation engine of a two-paddle ball game on a fixed playfield:
//! clamped movement, segment collision, scoring, input routing and the
//! per-tick simulation step, each with its contract.

pub mod ball;
pub mod error;
pub mod game;
pub mod geometry;
pub mod input;
pub mod player;
pub mod scheduler;
pub mod score;
pub mod simulation;
