//! Core of a keyboard-driven terminal music player: the session state machine,
//! fuzzy ranking, the playlist store and the playback command protocol.

mod text;
pub mod action;
pub mod confirmation;
pub mod data;
pub mod debug;
pub mod fuzzy_finder;
pub mod load;
pub mod playlist;
pub mod select;
pub mod song;
pub mod terminal;
pub mod text_prompt;
pub mod utils;
