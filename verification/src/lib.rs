//! A rules engine for standard chess.
//!
//! The engine owns the board state, generates fully legal moves (pattern
//! moves filtered so the mover's king is never left attacked), applies moves
//! while maintaining castling rights, the en-passant window and the turn, and
//! detects checkmate and stalemate. It also serializes a position to the
//! compact position-text format.

pub mod piece;
pub mod model;
pub mod rules;
pub mod board;
pub mod mutate;
pub mod movegen;
pub mod game;
pub mod notation;
pub mod fen;
pub mod random;
pub mod laws;
