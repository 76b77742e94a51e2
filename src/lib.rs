//! A terminal chessboard: a fixed 8×8 grid of squares, a turn counter, a
//! move applicator that relocates pieces without judging legality, and a
//! renderer that draws the board as a framed text block.
pub mod board;
pub mod coord;
pub mod laws;
pub mod pattern;
pub mod piece;
pub mod render;
