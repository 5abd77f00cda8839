//! Rules core of Gungi, a stacking strategy game played on a 9x9 board.
//!
//! Up to three pieces share a square as a tower, and only the top piece of a
//! tower moves. The library models pieces and towers, moves the top piece of
//! one tower onto another, and decides whether a square can be reached under
//! a piece's movement pattern.

pub mod pieces;
pub mod board;
pub mod text;
