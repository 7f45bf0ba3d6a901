//! A terminal snake game: the rules of one run, from key to frame.
pub mod board;
pub mod game;
pub mod geometry;
pub mod laws;
mod random;
pub mod snake;
