//! Game state of a grid snake game with levels and timed power-ups: movement,
//! collisions, food and power-up placement, and the laws they keep.

mod chance;
pub mod game;
pub mod grid;
pub mod laws;
