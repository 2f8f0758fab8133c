//! A two-player, turn-based board-game rules engine.
//!
//! The library keeps authoritative board state, enforces per-piece movement
//! legality (shape, path obstruction, capture rules, king safety), and
//! advances turns, detecting check, checkmate and stalemate.

pub mod geometry;
pub mod piece;
pub mod error;
pub mod board;
pub mod shape;
pub mod validator;
pub mod game;
pub mod laws;
