//! Piece kinds, sides, and the record describing one ply.

use vstd::prelude::*;
use crate::square::Square;

verus! {

/// The six chess piece kinds.
#[derive(Clone, Copy, PartialEq, Eq, Structural, Debug)]
pub enum PieceType {
    Pawn,
    Knight,
    Bishop,
    Rook,
    Queen,
    King,
}

/// The two sides. Light moves up the board (towards rank 8),
/// dark moves down (towards rank 1).
#[derive(Clone, Copy, PartialEq, Eq, Structural, Debug)]
pub enum Color {
    Light,
    Dark,
}

impl Color {
    /// The opposing side.
    pub open spec fn spec_other(self) -> Color {
        match self {
            Color::Light => Color::Dark,
            Color::Dark => Color::Light,
        }
    }

    /// The opposing side.
    pub fn other(self) -> (c: Color)
        ensures
            c == self.spec_other(),
    {
        match self {
            Color::Light => Color::Dark,
            Color::Dark => Color::Light,
        }
    }
}

/// One ply: origin, destination, the moving piece kind, whether the move
/// captures, an optional promotion kind, and whether it captures en passant.
///
/// A `Move` is produced by `Board::create_move` against a concrete position;
/// `promotion` is meaningful only for a pawn reaching the first or eighth
/// rank, and `en_passant` only for a diagonal pawn move to an empty square.
#[derive(Clone, Copy, PartialEq, Eq, Structural, Debug)]
pub struct Move {
    pub from: Square,
    pub to: Square,
    pub piece_type: PieceType,
    pub capture: bool,
    pub promotion: Option<PieceType>,
    pub en_passant: bool,
}

} // verus!
