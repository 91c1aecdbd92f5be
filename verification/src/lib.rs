//! Simulation core of a grid-based snake game.
//!
//! The library owns the authoritative game state: the snake's body and
//! heading, the food cell, the board extents, the timing accumulators and
//! the over/running flag. An outside driver feeds it key presses and
//! per-frame elapsed time; drawing is returned as a list of plain shape
//! commands for a renderer to execute.

pub mod game;
pub mod laws;
pub mod snake;
