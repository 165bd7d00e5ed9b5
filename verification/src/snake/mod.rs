//! The snake game: its rules and how a game is drawn on the LED matrix.

pub mod game;
pub mod render;
