//! A word-guessing game engine: a hidden target word of length `L` is fixed at
//! construction, the player composes guesses of length `L` in an edit buffer
//! and submits them, and each submitted guess is scored letter by letter
//! against the target.

pub mod board;
mod chars;
pub mod engine;
pub mod select;
pub mod session;
