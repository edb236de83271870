//! The position: overlapping 64-bit occupancy masks plus fixed geometry masks.

use vstd::prelude::*;
use crate::bits::bit64;
use crate::piece::{Color, Move, PieceType};
use crate::square::{rank_of, Square};

verus! {

/// Light side's starting occupancy: ranks 1 and 2.
pub const START_LIGHT: u64 = 0x0000_0000_0000_FFFF;

/// Dark side's starting occupancy: ranks 7 and 8.
pub const START_DARK: u64 = 0xFFFF_0000_0000_0000;

/// Both sides' starting pawns: ranks 2 and 7.
pub const START_PAWNS: u64 = 0x00FF_0000_0000_FF00;

/// Both sides' starting knights: b1, g1, b8, g8.
pub const START_KNIGHTS: u64 = 0x4200_0000_0000_0042;

/// Both sides' starting bishops: c1, f1, c8, f8.
pub const START_BISHOPS: u64 = 0x2400_0000_0000_0024;

/// Both sides' starting rooks: a1, h1, a8, h8.
pub const START_ROOKS: u64 = 0x8100_0000_0000_0081;

/// Both sides' starting queens: d1, d8.
pub const START_QUEENS: u64 = 0x0800_0000_0000_0008;

/// Both sides' starting kings: e1, e8.
pub const START_KINGS: u64 = 0x1000_0000_0000_0010;

/// The a-file.
pub const MASK_A_FILE: u64 = 0x0101_0101_0101_0101;

/// The h-file.
pub const MASK_H_FILE: u64 = 0x8080_8080_8080_8080;

/// Rank 1.
pub const MASK_FIRST_RANK: u64 = 0x0000_0000_0000_00FF;

/// Rank 8.
pub const MASK_EIGHTH_RANK: u64 = 0xFF00_0000_0000_0000;

/// The a1-h8 diagonal.
pub const MASK_A1_H8: u64 = 0x8040_2010_0804_0201;

/// The h1-a8 anti-diagonal.
pub const MASK_H1_A8: u64 = 0x0102_0408_1020_4080;

/// The full position. Bit `i` of each mask corresponds to the square with
/// index `i` (a1 = 0 ... h8 = 63).
///
/// Every occupied square is set in exactly one of `light_pieces` /
/// `dark_pieces` and in exactly one of the six kind masks; the six geometry
/// masks are fixed for the lifetime of the engine. [`Board::wf`] states
/// these invariants; the constructors establish them and `make_move`
/// preserves them.
#[derive(Clone, Copy)]
pub struct Board {
    pub light_pieces: u64,
    pub dark_pieces: u64,
    pub pawns: u64,
    pub knights: u64,
    pub bishops: u64,
    pub rooks: u64,
    pub queens: u64,
    pub kings: u64,
    pub a_file: u64,
    pub h_file: u64,
    pub first_rank: u64,
    pub eighth_rank: u64,
    pub a1_h8_diagonal: u64,
    pub h1_a8_anti_diagonal: u64,
}

impl Board {
    /// The occupancy mask of side `c`.
    pub open spec fn color_mask(self, c: Color) -> u64 {
        match c {
            Color::Light => self.light_pieces,
            Color::Dark => self.dark_pieces,
        }
    }

    /// The occupancy mask of piece kind `k`.
    pub open spec fn kind_mask(self, k: PieceType) -> u64 {
        match k {
            PieceType::Pawn => self.pawns,
            PieceType::Knight => self.knights,
            PieceType::Bishop => self.bishops,
            PieceType::Rook => self.rooks,
            PieceType::Queen => self.queens,
            PieceType::King => self.kings,
        }
    }

    /// Whether the square with index `i` is occupied by either side.
    pub open spec fn occupied(self, i: u64) -> bool {
        bit64(self.light_pieces, i) || bit64(self.dark_pieces, i)
    }

    /// The side occupying square index `i`, if any.
    pub open spec fn color_at(self, i: u64) -> Option<Color> {
        if bit64(self.light_pieces, i) {
            Some(Color::Light)
        } else if bit64(self.dark_pieces, i) {
            Some(Color::Dark)
        } else {
            None
        }
    }

    /// The piece kind whose mask holds square index `i`, if any, probed in
    /// the fixed order pawns, knights, bishops, rooks, queens, kings.
    pub open spec fn kind_at(self, i: u64) -> Option<PieceType> {
        if bit64(self.pawns, i) {
            Some(PieceType::Pawn)
        } else if bit64(self.knights, i) {
            Some(PieceType::Knight)
        } else if bit64(self.bishops, i) {
            Some(PieceType::Bishop)
        } else if bit64(self.rooks, i) {
            Some(PieceType::Rook)
        } else if bit64(self.queens, i) {
            Some(PieceType::Queen)
        } else if bit64(self.kings, i) {
            Some(PieceType::King)
        } else {
            None
        }
    }

    /// How many of the six kind masks hold square index `i`.
    pub open spec fn kind_count(self, i: u64) -> int {
        (if bit64(self.pawns, i) {
            1int
        } else {
            0int
        }) + (if bit64(self.knights, i) {
            1int
        } else {
            0int
        }) + (if bit64(self.bishops, i) {
            1int
        } else {
            0int
        }) + (if bit64(self.rooks, i) {
            1int
        } else {
            0int
        }) + (if bit64(self.queens, i) {
            1int
        } else {
            0int
        }) + (if bit64(self.kings, i) {
            1int
        } else {
            0int
        })
    }

    /// The geometry masks hold their fixed values.
    pub open spec fn geometry_fixed(self) -> bool {
        &&& self.a_file == MASK_A_FILE
        &&& self.h_file == MASK_H_FILE
        &&& self.first_rank == MASK_FIRST_RANK
        &&& self.eighth_rank == MASK_EIGHTH_RANK
        &&& self.a1_h8_diagonal == MASK_A1_H8
        &&& self.h1_a8_anti_diagonal == MASK_H1_A8
    }

    /// Well-formedness: no square is set in both color masks, every occupied
    /// square is set in exactly one kind mask, no kind mask holds an empty
    /// square, and the geometry masks hold their fixed values.
    pub open spec fn wf(self) -> bool {
        &&& forall|i: u64|
            i < 64 ==> !(bit64(self.light_pieces, i) && bit64(self.dark_pieces, i))
        &&& forall|i: u64|
            i < 64 ==> self.kind_count(i) == (if self.occupied(i) {
                1int
            } else {
                0int
            })
        &&& self.geometry_fixed()
    }

    /// The standard starting position.
    pub fn default() -> (board: Board)
        ensures
            board.light_pieces == START_LIGHT,
            board.dark_pieces == START_DARK,
            board.pawns == START_PAWNS,
            board.knights == START_KNIGHTS,
            board.bishops == START_BISHOPS,
            board.rooks == START_ROOKS,
            board.queens == START_QUEENS,
            board.kings == START_KINGS,
            board.wf(),
    {
        let board = Board {
            light_pieces: START_LIGHT,
            dark_pieces: START_DARK,
            pawns: START_PAWNS,
            bishops: START_BISHOPS,
            knights: START_KNIGHTS,
            rooks: START_ROOKS,
            queens: START_QUEENS,
            kings: START_KINGS,
            a_file: MASK_A_FILE,
            h_file: MASK_H_FILE,
            first_rank: MASK_FIRST_RANK,
            eighth_rank: MASK_EIGHTH_RANK,
            a1_h8_diagonal: MASK_A1_H8,
            h1_a8_anti_diagonal: MASK_H1_A8,
        };
        proof {
            assert forall|i: u64| i < 64 implies !(bit64(board.light_pieces, i) && bit64(
                board.dark_pieces,
                i,
            )) by {
                lemma_start_masks(i);
            }
            assert forall|i: u64| i < 64 implies board.kind_count(i) == (if board.occupied(i) {
                1int
            } else {
                0int
            }) by {
                lemma_start_masks(i);
            }
        }
        board
    }

    /// A position from explicit occupancy masks, with the standard geometry
    /// masks. Returns `None` exactly when the masks are inconsistent: a
    /// square set in both color masks, in two kind masks, in a color mask
    /// but no kind mask, or in a kind mask but no color mask.
    pub fn from_masks(
        light_pieces: u64,
        dark_pieces: u64,
        pawns: u64,
        knights: u64,
        bishops: u64,
        rooks: u64,
        queens: u64,
        kings: u64,
    ) -> (r: Option<Board>)
        ensures
            r matches Some(board) ==> board == assembled(
                light_pieces,
                dark_pieces,
                pawns,
                knights,
                bishops,
                rooks,
                queens,
                kings,
            ) && board.wf(),
            r is None ==> !assembled(
                light_pieces,
                dark_pieces,
                pawns,
                knights,
                bishops,
                rooks,
                queens,
                kings,
            ).wf(),
    {
        let board = Board {
            light_pieces,
            dark_pieces,
            pawns,
            bishops,
            knights,
            rooks,
            queens,
            kings,
            a_file: MASK_A_FILE,
            h_file: MASK_H_FILE,
            first_rank: MASK_FIRST_RANK,
            eighth_rank: MASK_EIGHTH_RANK,
            a1_h8_diagonal: MASK_A1_H8,
            h1_a8_anti_diagonal: MASK_H1_A8,
        };
        let mut i: u64 = 0;
        while i < 64
            invariant
                i <= 64,
                forall|j: u64|
                    j < i ==> !(bit64(board.light_pieces, j) && bit64(board.dark_pieces, j)),
                forall|j: u64|
                    j < i ==> board.kind_count(j) == (if board.occupied(j) {
                        1int
                    } else {
                        0int
                    }),
                board == assembled(
                    light_pieces,
                    dark_pieces,
                    pawns,
                    knights,
                    bishops,
                    rooks,
                    queens,
                    kings,
                ),
            decreases 64 - i,
        {
            let in_light = (board.light_pieces >> i) & 1 == 1;
            let in_dark = (board.dark_pieces >> i) & 1 == 1;
            let kinds = count_kind_bits(&board, i);
            let want: u64 = if in_light || in_dark {
                1
            } else {
                0
            };
            if (in_light && in_dark) || kinds != want {
                proof {
                    if board.wf() {
                        assert(!(bit64(board.light_pieces, i) && bit64(board.dark_pieces, i)));
                        assert(board.kind_count(i) == (if board.occupied(i) {
                            1int
                        } else {
                            0int
                        }));
                    }
                }
                return None;
            }
            i = i + 1;
        }
        Some(board)
    }

    /// Classifies the candidate ply `from -> to` against this position:
    /// finds the side and kind occupying `from`, flags a capture when `to`
    /// is occupied by either side, and proposes a queen promotion when a
    /// pawn reaches the first or eighth rank. Returns `None` exactly when
    /// no piece stands on `from`.
    pub fn create_move(&self, from: Square, to: Square) -> (r: Option<Move>)
        requires
            self.wf(),
        ensures
            r == (if self.occupied(from.idx()) {
                Some(classified_move(*self, from, to))
            } else {
                None::<Move>
            }),
    {
        let f = from.index();
        let t = to.index();
        let side = if (self.light_pieces >> f) & 1 == 1 {
            Some(Color::Light)
        } else if (self.dark_pieces >> f) & 1 == 1 {
            Some(Color::Dark)
        } else {
            None
        };
        if side.is_none() {
            return None;
        }
        proof {
            assert(self.kind_count(f) == 1);
        }
        let piece_type = if (self.pawns >> f) & 1 == 1 {
            PieceType::Pawn
        } else if (self.knights >> f) & 1 == 1 {
            PieceType::Knight
        } else if (self.bishops >> f) & 1 == 1 {
            PieceType::Bishop
        } else if (self.rooks >> f) & 1 == 1 {
            PieceType::Rook
        } else if (self.queens >> f) & 1 == 1 {
            PieceType::Queen
        } else {
            PieceType::King
        };
        let capture = (self.light_pieces >> t) & 1 == 1 || (self.dark_pieces >> t) & 1 == 1;
        let promotion = if piece_type == PieceType::Pawn && (t / 8 == 0 || t / 8 == 7) {
            Some(PieceType::Queen)
        } else {
            None
        };
        Some(
            Move {
                from,
                to,
                piece_type,
                capture,
                promotion,
                en_passant: false,
            },
        )
    }
}

/// The move that `Board::create_move` classifies for the ply `from -> to`
/// on an occupied origin: the kind standing on the origin, a capture flag
/// exactly when the destination is occupied, a proposed queen promotion
/// when a pawn reaches the first or eighth rank, and no en-passant claim.
pub open spec fn classified_move(board: Board, from: Square, to: Square) -> Move {
    Move {
        from,
        to,
        piece_type: board.kind_at(from.idx())->Some_0,
        capture: board.occupied(to.idx()),
        promotion: if board.kind_at(from.idx()) == Some(PieceType::Pawn) && (rank_of(to.idx())
            == 0 || rank_of(to.idx()) == 7) {
            Some(PieceType::Queen)
        } else {
            None
        },
        en_passant: false,
    }
}

/// The board that `Board::from_masks` would assemble from these occupancy
/// masks together with the standard geometry masks.
pub open spec fn assembled(
    light_pieces: u64,
    dark_pieces: u64,
    pawns: u64,
    knights: u64,
    bishops: u64,
    rooks: u64,
    queens: u64,
    kings: u64,
) -> Board {
    Board {
        light_pieces,
        dark_pieces,
        pawns,
        knights,
        bishops,
        rooks,
        queens,
        kings,
        a_file: MASK_A_FILE,
        h_file: MASK_H_FILE,
        first_rank: MASK_FIRST_RANK,
        eighth_rank: MASK_EIGHTH_RANK,
        a1_h8_diagonal: MASK_A1_H8,
        h1_a8_anti_diagonal: MASK_H1_A8,
    }
}

fn count_kind_bits(board: &Board, i: u64) -> (count: u64)
    requires
        i < 64,
    ensures
        count == board.kind_count(i),
{
    let p: u64 = if (board.pawns >> i) & 1 == 1 {
        1
    } else {
        0
    };
    let n: u64 = if (board.knights >> i) & 1 == 1 {
        1
    } else {
        0
    };
    let b: u64 = if (board.bishops >> i) & 1 == 1 {
        1
    } else {
        0
    };
    let r: u64 = if (board.rooks >> i) & 1 == 1 {
        1
    } else {
        0
    };
    let q: u64 = if (board.queens >> i) & 1 == 1 {
        1
    } else {
        0
    };
    let k: u64 = if (board.kings >> i) & 1 == 1 {
        1
    } else {
        0
    };
    p + n + b + r + q + k
}

pub(crate) fn occupied_at(board: &Board, i: u64) -> (r: bool)
    requires
        i < 64,
    ensures
        r == board.occupied(i),
{
    (board.light_pieces >> i) & 1 == 1 || (board.dark_pieces >> i) & 1 == 1
}

pub(crate) fn color_mask_of(board: &Board, side: Color) -> (m: u64)
    ensures
        m == board.color_mask(side),
{
    match side {
        Color::Light => board.light_pieces,
        Color::Dark => board.dark_pieces,
    }
}

pub(crate) fn kind_at_test(board: &Board, i: u64) -> (r: Option<PieceType>)
    requires
        i < 64,
    ensures
        r == board.kind_at(i),
{
    if (board.pawns >> i) & 1 == 1 {
        Some(PieceType::Pawn)
    } else if (board.knights >> i) & 1 == 1 {
        Some(PieceType::Knight)
    } else if (board.bishops >> i) & 1 == 1 {
        Some(PieceType::Bishop)
    } else if (board.rooks >> i) & 1 == 1 {
        Some(PieceType::Rook)
    } else if (board.queens >> i) & 1 == 1 {
        Some(PieceType::Queen)
    } else if (board.kings >> i) & 1 == 1 {
        Some(PieceType::King)
    } else {
        None
    }
}

pub(crate) fn color_at_test(board: &Board, i: u64) -> (r: Option<Color>)
    requires
        i < 64,
    ensures
        r == board.color_at(i),
{
    if (board.light_pieces >> i) & 1 == 1 {
        Some(Color::Light)
    } else if (board.dark_pieces >> i) & 1 == 1 {
        Some(Color::Dark)
    } else {
        None
    }
}

proof fn lemma_start_masks(i: u64)
    by (bit_vector)
    requires
        i < 64,
    ensures
        !(bit64(START_LIGHT, i) && bit64(START_DARK, i)),
        (if bit64(START_PAWNS, i) {
            1int
        } else {
            0int
        }) + (if bit64(START_KNIGHTS, i) {
            1int
        } else {
            0int
        }) + (if bit64(START_BISHOPS, i) {
            1int
        } else {
            0int
        }) + (if bit64(START_ROOKS, i) {
            1int
        } else {
            0int
        }) + (if bit64(START_QUEENS, i) {
            1int
        } else {
            0int
        }) + (if bit64(START_KINGS, i) {
            1int
        } else {
            0int
        }) == (if bit64(START_LIGHT, i) || bit64(START_DARK, i) {
            1int
        } else {
            0int
        }),
{
}

} // verus!
