//! A music visualizer's controls: a library of songs with display titles
//! made from file names, one play/pause button, and the chain that carries
//! the button's state to the song and on to the display.

pub mod controller;
pub mod menu;
pub mod music_library;
pub mod song;
pub mod view;
