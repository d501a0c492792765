//! A snake game engine for many independent sessions: the toroidal board, the snake
//! and its rules, the per-tick session update with its autoplay bot, the requests a
//! client may make, and the registry that holds the live sessions.

pub mod clock;
pub mod game;
pub mod grid;
pub mod protocol;
pub mod registry;
pub mod rng;
pub mod snake;
