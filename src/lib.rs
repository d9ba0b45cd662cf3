//! Core rules of a grid-based snake game: the snake's movement and collision
//! state machine, and the placement of food on free cells.

pub mod grid;
pub mod snake;
pub mod laws;
pub mod food;
pub mod game;
