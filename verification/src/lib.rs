//! A chess rules engine: board state, per-piece move legality, castling rights,
//! en-passant bookkeeping and a decoder for coordinate move notation.
//!
//! King safety (check, checkmate, pins) is not analysed: a move that leaves the
//! mover's own king attacked is accepted.

pub mod arithmetic;
pub mod board;
pub mod conversions;
pub mod coordinate;
pub mod game;
pub mod laws;
pub mod notation;
pub mod order;
pub mod pieces;
pub mod render;
pub mod rules;
pub mod text;
