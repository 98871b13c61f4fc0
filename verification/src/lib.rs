//! A single-player word-guessing game ("hangman"): the word source, the game
//! state machine with its strike and grace accounting, and the derivation of
//! what a display layer shows.

pub mod app;
pub mod chance;
pub mod figure;
pub mod input;
pub mod laws;
pub mod rules;
pub mod text;
pub mod util;
