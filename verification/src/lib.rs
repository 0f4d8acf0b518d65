//! Rules of a small arcade game in which the player dodges enemies for as
//! long as possible.
//!
//! The crate decides what happens on every game event and leaves the doing to
//! its caller: each handler takes plain values and returns the commands that
//! the host engine is to carry out, in order. Nothing here draws, plays a
//! sound or reads a key.

mod chance;
pub mod game;
pub mod hud;
pub mod mob;
pub mod player;
pub mod text;
