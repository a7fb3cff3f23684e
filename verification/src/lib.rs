//! Snakes and ladders, played by a single token on a board of one hundred
//! squares, with the rules of play stated as contracts.

pub mod board;
pub mod dice;
pub mod game;
pub mod trials;
