//! A two-player ball-and-paddle game on a 600 by 600 playfield.
//!
//! The host calls `Controller::update` once per frame with the keys that are
//! held, and then paints what `draw` hands out.

pub mod ball;
pub mod board;
pub mod constants;
pub mod controller;
pub mod input;
pub mod paddle;
pub mod scene;
