//! A hangman game: the guess state machine and the cursor-addressed drawing of
//! its board, both verified.

pub mod game;
