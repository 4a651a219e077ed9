//! Interactive chessboard controller: pointer geometry, pawn promotion
//! gestures, the selection state machine, redraw bookkeeping for the two
//! cached visual layers, and the plan of what each layer draws.
//!
//! The chess engine itself (legal moves, game state, the board) is not part
//! of this crate: its answers are handed in as plain values.

pub mod controller;
pub mod geometry;
pub mod layers;
pub mod pieces;
pub mod plan;
pub mod promotion;
