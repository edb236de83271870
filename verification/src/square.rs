//! The 64 board squares under the little-endian rank-file mapping.
//!
//! Square `A1` is bit index 0, `B1` is 1, and so on rank by rank up to
//! `H8` at 63: the index of a square is `rank * 8 + file`.

use vstd::prelude::*;

verus! {

/// One of the 64 board cells, named file-then-rank (`B2` is file b, rank 2).
#[derive(Clone, Copy, PartialEq, Eq, Structural, Debug)]
pub enum Square {
    A1, B1, C1, D1, E1, F1, G1, H1,
    A2, B2, C2, D2, E2, F2, G2, H2,
    A3, B3, C3, D3, E3, F3, G3, H3,
    A4, B4, C4, D4, E4, F4, G4, H4,
    A5, B5, C5, D5, E5, F5, G5, H5,
    A6, B6, C6, D6, E6, F6, G6, H6,
    A7, B7, C7, D7, E7, F7, G7, H7,
    A8, B8, C8, D8, E8, F8, G8, H8,
}

/// The error returned when a bit index outside `[0, 63]` is presented
/// where a square is required.
#[derive(Clone, Copy, PartialEq, Eq, Structural, Debug)]
pub struct InvalidSquare;

/// The file (column) of square index `i`: 0 for the a-file up to 7 for the h-file.
pub open spec fn file_of(i: u64) -> int {
    (i % 8) as int
}

/// The rank (row) of square index `i`: 0 for rank 1 up to 7 for rank 8.
pub open spec fn rank_of(i: u64) -> int {
    (i / 8) as int
}

impl Square {
    /// The bit index of this square, in `[0, 63]`.
    pub open spec fn idx(self) -> u64 {
        match self {
            Square::A1 => 0,
            Square::B1 => 1,
            Square::C1 => 2,
            Square::D1 => 3,
            Square::E1 => 4,
            Square::F1 => 5,
            Square::G1 => 6,
            Square::H1 => 7,
            Square::A2 => 8,
            Square::B2 => 9,
            Square::C2 => 10,
            Square::D2 => 11,
            Square::E2 => 12,
            Square::F2 => 13,
            Square::G2 => 14,
            Square::H2 => 15,
            Square::A3 => 16,
            Square::B3 => 17,
            Square::C3 => 18,
            Square::D3 => 19,
            Square::E3 => 20,
            Square::F3 => 21,
            Square::G3 => 22,
            Square::H3 => 23,
            Square::A4 => 24,
            Square::B4 => 25,
            Square::C4 => 26,
            Square::D4 => 27,
            Square::E4 => 28,
            Square::F4 => 29,
            Square::G4 => 30,
            Square::H4 => 31,
            Square::A5 => 32,
            Square::B5 => 33,
            Square::C5 => 34,
            Square::D5 => 35,
            Square::E5 => 36,
            Square::F5 => 37,
            Square::G5 => 38,
            Square::H5 => 39,
            Square::A6 => 40,
            Square::B6 => 41,
            Square::C6 => 42,
            Square::D6 => 43,
            Square::E6 => 44,
            Square::F6 => 45,
            Square::G6 => 46,
            Square::H6 => 47,
            Square::A7 => 48,
            Square::B7 => 49,
            Square::C7 => 50,
            Square::D7 => 51,
            Square::E7 => 52,
            Square::F7 => 53,
            Square::G7 => 54,
            Square::H7 => 55,
            Square::A8 => 56,
            Square::B8 => 57,
            Square::C8 => 58,
            Square::D8 => 59,
            Square::E8 => 60,
            Square::F8 => 61,
            Square::G8 => 62,
            Square::H8 => 63,
        }
    }

    /// The bit index of this square: `rank * 8 + file`, in `[0, 63]`.
    pub fn index(self) -> (i: u64)
        ensures
            i == self.idx(),
            i < 64,
    {
        match self {
            Square::A1 => 0,
            Square::B1 => 1,
            Square::C1 => 2,
            Square::D1 => 3,
            Square::E1 => 4,
            Square::F1 => 5,
            Square::G1 => 6,
            Square::H1 => 7,
            Square::A2 => 8,
            Square::B2 => 9,
            Square::C2 => 10,
            Square::D2 => 11,
            Square::E2 => 12,
            Square::F2 => 13,
            Square::G2 => 14,
            Square::H2 => 15,
            Square::A3 => 16,
            Square::B3 => 17,
            Square::C3 => 18,
            Square::D3 => 19,
            Square::E3 => 20,
            Square::F3 => 21,
            Square::G3 => 22,
            Square::H3 => 23,
            Square::A4 => 24,
            Square::B4 => 25,
            Square::C4 => 26,
            Square::D4 => 27,
            Square::E4 => 28,
            Square::F4 => 29,
            Square::G4 => 30,
            Square::H4 => 31,
            Square::A5 => 32,
            Square::B5 => 33,
            Square::C5 => 34,
            Square::D5 => 35,
            Square::E5 => 36,
            Square::F5 => 37,
            Square::G5 => 38,
            Square::H5 => 39,
            Square::A6 => 40,
            Square::B6 => 41,
            Square::C6 => 42,
            Square::D6 => 43,
            Square::E6 => 44,
            Square::F6 => 45,
            Square::G6 => 46,
            Square::H6 => 47,
            Square::A7 => 48,
            Square::B7 => 49,
            Square::C7 => 50,
            Square::D7 => 51,
            Square::E7 => 52,
            Square::F7 => 53,
            Square::G7 => 54,
            Square::H7 => 55,
            Square::A8 => 56,
            Square::B8 => 57,
            Square::C8 => 58,
            Square::D8 => 59,
            Square::E8 => 60,
            Square::F8 => 61,
            Square::G8 => 62,
            Square::H8 => 63,
        }
    }

    /// The square with bit index `i`, or `InvalidSquare` when `i` is not
    /// in `[0, 63]`. Round-trips with [`Square::index`].
    pub fn from_index(i: u64) -> (r: Result<Square, InvalidSquare>)
        ensures
            i < 64 <==> r is Ok,
            r matches Ok(s) ==> s.idx() == i,
    {
        match i {
        0 => Ok(Square::A1),
        1 => Ok(Square::B1),
        2 => Ok(Square::C1),
        3 => Ok(Square::D1),
        4 => Ok(Square::E1),
        5 => Ok(Square::F1),
        6 => Ok(Square::G1),
        7 => Ok(Square::H1),
        8 => Ok(Square::A2),
        9 => Ok(Square::B2),
        10 => Ok(Square::C2),
        11 => Ok(Square::D2),
        12 => Ok(Square::E2),
        13 => Ok(Square::F2),
        14 => Ok(Square::G2),
        15 => Ok(Square::H2),
        16 => Ok(Square::A3),
        17 => Ok(Square::B3),
        18 => Ok(Square::C3),
        19 => Ok(Square::D3),
        20 => Ok(Square::E3),
        21 => Ok(Square::F3),
        22 => Ok(Square::G3),
        23 => Ok(Square::H3),
        24 => Ok(Square::A4),
        25 => Ok(Square::B4),
        26 => Ok(Square::C4),
        27 => Ok(Square::D4),
        28 => Ok(Square::E4),
        29 => Ok(Square::F4),
        30 => Ok(Square::G4),
        31 => Ok(Square::H4),
        32 => Ok(Square::A5),
        33 => Ok(Square::B5),
        34 => Ok(Square::C5),
        35 => Ok(Square::D5),
        36 => Ok(Square::E5),
        37 => Ok(Square::F5),
        38 => Ok(Square::G5),
        39 => Ok(Square::H5),
        40 => Ok(Square::A6),
        41 => Ok(Square::B6),
        42 => Ok(Square::C6),
        43 => Ok(Square::D6),
        44 => Ok(Square::E6),
        45 => Ok(Square::F6),
        46 => Ok(Square::G6),
        47 => Ok(Square::H6),
        48 => Ok(Square::A7),
        49 => Ok(Square::B7),
        50 => Ok(Square::C7),
        51 => Ok(Square::D7),
        52 => Ok(Square::E7),
        53 => Ok(Square::F7),
        54 => Ok(Square::G7),
        55 => Ok(Square::H7),
        56 => Ok(Square::A8),
        57 => Ok(Square::B8),
        58 => Ok(Square::C8),
        59 => Ok(Square::D8),
        60 => Ok(Square::E8),
        61 => Ok(Square::F8),
        62 => Ok(Square::G8),
        63 => Ok(Square::H8),
            _ => Err(InvalidSquare),
        }
    }
}

/// Distinct squares have distinct indices, so converting a square to its
/// index and back yields the same square.
pub proof fn lemma_idx_injective(s: Square, q: Square)
    requires
        s.idx() == q.idx(),
    ensures
        s == q,
{
}

} // verus!
