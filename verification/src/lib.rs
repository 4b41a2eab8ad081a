//! Core logic of a small desktop music player: the player's state machine,
//! the text rules it shows on screen, and the search and download rules it
//! applies to the two online catalogues it knows.

pub mod model;
pub mod text;
pub mod json;
pub mod catalog;
pub mod player;
pub mod screen;
pub mod laws;
