//! Core of a grid-based snake game.
//!
//! The snake moves on a fixed grid of cells, grows when its head lands on a
//! fruit, speeds up with every fruit eaten, and loses when its head runs into
//! its own body. Everything that decides the game — movement, growth,
//! collision, direction handling, speed progression, restart — lives here,
//! with contracts; rendering, input polling and the clock are the host's
//! business.

pub mod coord;
pub mod game;
mod rng;
