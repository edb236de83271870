//! A bitboard chess position engine.
//!
//! The board is a family of 64-bit masks, one bit per square under the
//! little-endian rank-file mapping (a1 = bit 0, h8 = bit 63). The engine
//! classifies candidate moves, generates pseudo-legal destination sets per
//! piece kind, checks full legality (including king safety), and applies
//! accepted moves to the position.

pub mod bits;
pub mod board;
pub mod laws;
pub mod movegen;
pub mod moves;
pub mod piece;
pub mod render;
pub mod square;

pub use bits::popcnt64;
pub use board::Board;
pub use piece::{Color, Move, PieceType};
pub use square::{Square, InvalidSquare};
