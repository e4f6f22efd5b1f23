//! Verified logic for a handful of small desktop demos: a ball-and-paddle
//! game, a to-do list, a paint canvas and two music menus.
//!
//! Nothing here draws, polls a keyboard or touches a device. Each frame the
//! host hands in plain values and gets plain values back.

pub mod geometry;
pub mod paint;
pub mod player;
pub mod playlist;
pub mod pong;
pub mod shapes;
pub mod text;
pub mod todo;
pub mod visualizer;
