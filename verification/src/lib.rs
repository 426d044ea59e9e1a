//! A two-player Pong game on a fixed playing field, measured in whole pixels.
//!
//! The crate holds the rules of the game: how the paddles follow the keys,
//! how the ball travels, when it bounces and when a player scores. Drawing
//! and key polling are left to the program that embeds it.

pub mod body;
pub mod chance;
pub mod field;
pub mod game;
pub mod keys;
pub mod laws;
