//! Core of a two-player tic-tac-toe game on a fixed 3x3 board: cell storage,
//! move legality, win/tie detection, the numeric-keypad digit mapping used to
//! address cells, and text rendering of the board. The line-oriented terminal
//! driver around it is a separate, unverified program.

pub mod board;
pub mod digit;
pub mod input;
