//! Pseudo-legal destination generation per piece kind, and attack detection.
//!
//! A destination is pseudo-legal for a piece kind sitting on an origin
//! square when it matches the kind's movement pattern against the current
//! occupancy, ignoring whether the move would expose the mover's own king;
//! that safety check is layered on top by `Board::is_move_valid`.

use vstd::prelude::*;
use crate::bits::{bit64, lemma_bit_set, lemma_bit_zero};
use crate::board::{color_at_test, color_mask_of, kind_at_test, occupied_at, Board};
use crate::piece::{Color, PieceType};
use crate::square::{file_of, rank_of, Square};

verus! {

/// The distance between two integers.
pub open spec fn dist(a: int, b: int) -> int {
    if a <= b {
        b - a
    } else {
        a - b
    }
}

/// Whether `z` lies strictly between `x` and `y`.
pub open spec fn strictly_between(x: int, y: int, z: int) -> bool {
    (x < z && z < y) || (y < z && z < x)
}

/// The square index at rank `r`, file `f` (both in `[0, 7]`).
pub open spec fn square_at(r: int, f: int) -> u64 {
    (r * 8 + f) as u64
}

/// Whether `t` is a knight's jump away from `f`.
pub open spec fn knight_shape(f: u64, t: u64) -> bool {
    let df = dist(file_of(f), file_of(t));
    let dr = dist(rank_of(f), rank_of(t));
    (df == 1 && dr == 2) || (df == 2 && dr == 1)
}

/// Whether `t` is one king step away from `f`.
pub open spec fn king_shape(f: u64, t: u64) -> bool {
    let df = dist(file_of(f), file_of(t));
    let dr = dist(rank_of(f), rank_of(t));
    df <= 1 && dr <= 1 && f != t
}

/// Whether `f` and `t` share a rank.
pub open spec fn same_rank(f: u64, t: u64) -> bool {
    rank_of(f) == rank_of(t)
}

/// Whether `f` and `t` share a file.
pub open spec fn same_file(f: u64, t: u64) -> bool {
    file_of(f) == file_of(t)
}

/// Whether `f` and `t` share an a1-h8 direction diagonal.
pub open spec fn same_diagonal(f: u64, t: u64) -> bool {
    rank_of(f) - file_of(f) == rank_of(t) - file_of(t)
}

/// Whether `f` and `t` share an h1-a8 direction anti-diagonal.
pub open spec fn same_anti_diagonal(f: u64, t: u64) -> bool {
    rank_of(f) + file_of(f) == rank_of(t) + file_of(t)
}

/// Whether square `k` lies strictly between `f` and `t` on the rank, file,
/// diagonal or anti-diagonal they share.
pub open spec fn between(f: u64, t: u64, k: u64) -> bool {
    ||| (same_rank(f, t) && same_rank(f, k) && strictly_between(
        file_of(f),
        file_of(t),
        file_of(k),
    ))
    ||| (same_file(f, t) && same_file(f, k) && strictly_between(
        rank_of(f),
        rank_of(t),
        rank_of(k),
    ))
    ||| (same_diagonal(f, t) && same_diagonal(f, k) && strictly_between(
        rank_of(f),
        rank_of(t),
        rank_of(k),
    ))
    ||| (same_anti_diagonal(f, t) && same_anti_diagonal(f, k) && strictly_between(
        rank_of(f),
        rank_of(t),
        rank_of(k),
    ))
}

/// Whether every square strictly between `f` and `t` on their shared line
/// is empty.
pub open spec fn path_clear(board: Board, f: u64, t: u64) -> bool {
    forall|k: u64| k < 64 && between(f, t, k) ==> !board.occupied(k)
}

/// Whether `t` is a pseudo-legal rook destination from `f`: same rank or
/// file, no piece strictly between, and no friendly piece on `t`.
pub open spec fn rook_dest(board: Board, side: Color, f: u64, t: u64) -> bool {
    &&& f != t
    &&& (same_rank(f, t) || same_file(f, t))
    &&& path_clear(board, f, t)
    &&& !bit64(board.color_mask(side), t)
}

/// Whether `t` is a pseudo-legal bishop destination from `f`: same diagonal
/// or anti-diagonal, no piece strictly between, and no friendly piece on `t`.
pub open spec fn bishop_dest(board: Board, side: Color, f: u64, t: u64) -> bool {
    &&& f != t
    &&& (same_diagonal(f, t) || same_anti_diagonal(f, t))
    &&& path_clear(board, f, t)
    &&& !bit64(board.color_mask(side), t)
}

/// The rank a side's pawns advance towards: +1 for light, -1 for dark.
pub open spec fn pawn_dir(side: Color) -> int {
    match side {
        Color::Light => 1,
        Color::Dark => -1,
    }
}

/// The rank a side's pawns start on: rank 2 for light, rank 7 for dark.
pub open spec fn pawn_start_rank(side: Color) -> int {
    match side {
        Color::Light => 1,
        Color::Dark => 6,
    }
}

/// The rank a side's pawns capture en passant from: rank 5 for light,
/// rank 4 for dark.
pub open spec fn en_passant_rank(side: Color) -> int {
    match side {
        Color::Light => 4,
        Color::Dark => 3,
    }
}

/// Whether the move `f -> t` is a single pawn push for `side`: one rank
/// forward on the same file, onto an empty square.
pub open spec fn pawn_push(board: Board, side: Color, f: u64, t: u64) -> bool {
    &&& same_file(f, t)
    &&& rank_of(t) == rank_of(f) + pawn_dir(side)
    &&& !board.occupied(t)
}

/// Whether the move `f -> t` is a double pawn push for `side`: two ranks
/// forward on the same file from the starting rank, with the skipped
/// square and the destination both empty.
pub open spec fn pawn_double_push(board: Board, side: Color, f: u64, t: u64) -> bool {
    &&& same_file(f, t)
    &&& rank_of(f) == pawn_start_rank(side)
    &&& rank_of(t) == rank_of(f) + 2 * pawn_dir(side)
    &&& !board.occupied(square_at(rank_of(f) + pawn_dir(side), file_of(f)))
    &&& !board.occupied(t)
}

/// Whether the move `f -> t` is a pawn capture for `side`: one rank
/// forward onto an adjacent file, onto a square held by the other side.
pub open spec fn pawn_capture(board: Board, side: Color, f: u64, t: u64) -> bool {
    &&& dist(file_of(f), file_of(t)) == 1
    &&& rank_of(t) == rank_of(f) + pawn_dir(side)
    &&& bit64(board.color_mask(side.spec_other()), t)
}

/// The square of the pawn captured en passant by `f -> t`: the mover's
/// rank, the destination's file.
pub open spec fn en_passant_victim(f: u64, t: u64) -> u64 {
    square_at(rank_of(f), file_of(t))
}

/// Whether the move `f -> t` is an en-passant capture for `side`: a
/// diagonal pawn step from the en-passant rank onto an empty square, with
/// an enemy pawn on the bypassed square beside the mover.
pub open spec fn pawn_en_passant(board: Board, side: Color, f: u64, t: u64) -> bool {
    &&& dist(file_of(f), file_of(t)) == 1
    &&& rank_of(f) == en_passant_rank(side)
    &&& rank_of(t) == rank_of(f) + pawn_dir(side)
    &&& !board.occupied(t)
    &&& bit64(board.color_mask(side.spec_other()), en_passant_victim(f, t))
    &&& bit64(board.pawns, en_passant_victim(f, t))
}

/// Whether `t` lies on the first or eighth rank, where a pawn promotes.
pub open spec fn promotion_rank(t: u64) -> bool {
    rank_of(t) == 0 || rank_of(t) == 7
}

/// Whether `t` is a pseudo-legal destination for a piece of kind `kind` and
/// side `side` sitting on `f`, under the declared `promotion` and
/// `en_passant` flags. King safety is not considered here.
///
/// For a pawn, the `en_passant` flag selects between the en-passant shape
/// and the ordinary push/capture shapes, and the `promotion` flag must be
/// declared exactly when the destination lies on the first or eighth rank.
/// For every other kind both flags must be absent.
pub open spec fn pseudo_legal(
    board: Board,
    kind: PieceType,
    side: Color,
    f: u64,
    t: u64,
    promotion: bool,
    en_passant: bool,
) -> bool {
    f < 64 && t < 64 && match kind {
        PieceType::Pawn => {
            &&& (if en_passant {
                pawn_en_passant(board, side, f, t)
            } else {
                pawn_push(board, side, f, t) || pawn_double_push(board, side, f, t)
                    || pawn_capture(board, side, f, t)
            })
            &&& (promotion <==> promotion_rank(t))
        },
        PieceType::Knight => knight_shape(f, t) && !promotion && !en_passant,
        PieceType::Bishop => bishop_dest(board, side, f, t) && !promotion && !en_passant,
        PieceType::Rook => rook_dest(board, side, f, t) && !promotion && !en_passant,
        PieceType::Queen => (rook_dest(board, side, f, t) || bishop_dest(board, side, f, t))
            && !promotion && !en_passant,
        PieceType::King => king_shape(f, t) && !promotion && !en_passant,
    }
}

/// Whether the piece on `s` (if any) attacks square `t`: `t` is a
/// pseudo-legal destination for that piece, with the promotion flag implied
/// by the destination rank and without en passant.
pub open spec fn attacks(board: Board, s: u64, t: u64) -> bool {
    match (board.color_at(s), board.kind_at(s)) {
        (Some(side), Some(kind)) => pseudo_legal(
            board,
            kind,
            side,
            s,
            t,
            kind == PieceType::Pawn && promotion_rank(t),
            false,
        ),
        _ => false,
    }
}

/// Whether any piece of side `by` attacks square `t`.
pub open spec fn square_attacked(board: Board, t: u64, by: Color) -> bool {
    exists|s: u64| s < 64 && board.color_at(s) == Some(by) && attacks(board, s, t)
}

/// Whether the king of `side` stands attacked by the other side.
pub open spec fn king_attacked(board: Board, side: Color) -> bool {
    exists|k: u64|
        k < 64 && bit64(board.kings, k) && bit64(board.color_mask(side), k) && square_attacked(
            board,
            k,
            side.spec_other(),
        )
}

fn between_test(f: u64, t: u64, k: u64) -> (r: bool)
    requires
        f < 64,
        t < 64,
        k < 64,
    ensures
        r == between(f, t, k),
{
    let rf = f / 8;
    let ff = f % 8;
    let rt = t / 8;
    let ft = t % 8;
    let rk = k / 8;
    let fk = k % 8;
    let on_rank = rf == rt && rf == rk && ((ff < fk && fk < ft) || (ft < fk && fk < ff));
    let on_file = ff == ft && ff == fk && ((rf < rk && rk < rt) || (rt < rk && rk < rf));
    let on_diag = rf + ft == rt + ff && rf + fk == rk + ff && ((rf < rk && rk < rt) || (rt < rk
        && rk < rf));
    let on_anti = rf + ff == rt + ft && rf + ff == rk + fk && ((rf < rk && rk < rt) || (rt < rk
        && rk < rf));
    on_rank || on_file || on_diag || on_anti
}

fn path_clear_test(board: &Board, f: u64, t: u64) -> (r: bool)
    requires
        f < 64,
        t < 64,
    ensures
        r == path_clear(*board, f, t),
{
    let mut k: u64 = 0;
    while k < 64
        invariant
            k <= 64,
            f < 64,
            t < 64,
            forall|j: u64| j < k && between(f, t, j) ==> !board.occupied(j),
        decreases 64 - k,
    {
        if between_test(f, t, k) && occupied_at(board, k) {
            return false;
        }
        k = k + 1;
    }
    true
}

/// Whether `t` is a pseudo-legal destination for `kind` of `side` on `f`
/// under the declared flags.
pub fn pseudo_legal_test(
    board: &Board,
    kind: PieceType,
    side: Color,
    f: u64,
    t: u64,
    promotion: bool,
    en_passant: bool,
) -> (r: bool)
    requires
        f < 64,
        t < 64,
    ensures
        r == pseudo_legal(*board, kind, side, f, t, promotion, en_passant),
{
    let rf = f / 8;
    let ff = f % 8;
    let rt = t / 8;
    let ft = t % 8;
    let df = if ff <= ft {
        ft - ff
    } else {
        ff - ft
    };
    let dr = if rf <= rt {
        rt - rf
    } else {
        rf - rt
    };
    match kind {
        PieceType::Pawn => {
            let shape_ok = if en_passant {
                let forward_ok = match side {
                    Color::Light => rf == 4 && rt == 5,
                    Color::Dark => rf == 3 && rt == 2,
                };
                if df == 1 && forward_ok {
                    let victim = rf * 8 + ft;
                    let enemy = color_mask_of(board, side.other());
                    !occupied_at(board, t) && (enemy >> victim) & 1 == 1 && (board.pawns >> victim)
                        & 1 == 1
                } else {
                    false
                }
            } else {
                let push = ff == ft && (match side {
                    Color::Light => rt == rf + 1,
                    Color::Dark => rt + 1 == rf,
                }) && !occupied_at(board, t);
                let double = ff == ft && (match side {
                    Color::Light => rf == 1 && rt == 3,
                    Color::Dark => rf == 6 && rt == 4,
                }) && !occupied_at(
                    board,
                    match side {
                        Color::Light => f + 8,
                        Color::Dark => f - 8,
                    },
                ) && !occupied_at(board, t);
                let enemy = color_mask_of(board, side.other());
                let capture = df == 1 && (match side {
                    Color::Light => rt == rf + 1,
                    Color::Dark => rt + 1 == rf,
                }) && (enemy >> t) & 1 == 1;
                push || double || capture
            };
            shape_ok && (promotion == (rt == 0 || rt == 7))
        },
        PieceType::Knight => ((df == 1 && dr == 2) || (df == 2 && dr == 1)) && !promotion
            && !en_passant,
        PieceType::Bishop => {
            let friendly = color_mask_of(board, side);
            f != t && (rf + ft == rt + ff || rf + ff == rt + ft) && path_clear_test(board, f, t)
                && (friendly >> t) & 1 != 1 && !promotion && !en_passant
        },
        PieceType::Rook => {
            let friendly = color_mask_of(board, side);
            f != t && (rf == rt || ff == ft) && path_clear_test(board, f, t) && (friendly >> t) & 1
                != 1 && !promotion && !en_passant
        },
        PieceType::Queen => {
            let friendly = color_mask_of(board, side);
            f != t && (rf == rt || ff == ft || rf + ft == rt + ff || rf + ff == rt + ft)
                && path_clear_test(board, f, t) && (friendly >> t) & 1 != 1 && !promotion
                && !en_passant
        },
        PieceType::King => df <= 1 && dr <= 1 && f != t && !promotion && !en_passant,
    }
}

impl PieceType {
    /// The set of pseudo-legal destination squares, as a square-set bitmask,
    /// for a piece of this kind and `side` sitting on `from`, under the
    /// declared `promotion` and `en_passant` flags. Bit `t` of the result is
    /// set exactly when the square with index `t` is such a destination;
    /// king safety is not considered here.
    pub fn moves_from(
        self,
        board: &Board,
        from: Square,
        side: Color,
        promotion: bool,
        en_passant: bool,
    ) -> (mask: u64)
        ensures
            forall|t: u64|
                t < 64 ==> (#[trigger] bit64(mask, t) <==> pseudo_legal(
                    *board,
                    self,
                    side,
                    from.idx(),
                    t,
                    promotion,
                    en_passant,
                )),
    {
        let f = from.index();
        let mut mask: u64 = 0;
        let mut t: u64 = 0;
        proof {
            assert forall|j: u64| j < 64 implies !bit64(0u64, j) by {
                lemma_bit_zero(j);
            }
        }
        while t < 64
            invariant
                t <= 64,
                f == from.idx(),
                f < 64,
                forall|j: u64|
                    j < t ==> (#[trigger] bit64(mask, j) <==> pseudo_legal(
                        *board,
                        self,
                        side,
                        f,
                        j,
                        promotion,
                        en_passant,
                    )),
                forall|j: u64| t <= j < 64 ==> !(#[trigger] bit64(mask, j)),
            decreases 64 - t,
        {
            if pseudo_legal_test(board, self, side, f, t, promotion, en_passant) {
                proof {
                    assert forall|j: u64| j < 64 implies (#[trigger] bit64(mask | (1u64 << t), j)
                        <==> (bit64(mask, j) || j == t)) by {
                        lemma_bit_set(mask, t, j);
                    }
                }
                mask = mask | (1u64 << t);
            }
            t = t + 1;
        }
        mask
    }
}

impl Board {
    /// Whether any piece of side `by` attacks the square with index `t`.
    pub fn is_square_attacked(&self, t: u64, by: Color) -> (r: bool)
        requires
            t < 64,
        ensures
            r == square_attacked(*self, t, by),
    {
        let mut s: u64 = 0;
        while s < 64
            invariant
                s <= 64,
                t < 64,
                forall|j: u64| j < s ==> !(self.color_at(j) == Some(by) && attacks(*self, j, t)),
            decreases 64 - s,
        {
            let same_side = match color_at_test(self, s) {
                Some(c) => c == by,
                None => false,
            };
            if same_side {
                match kind_at_test(self, s) {
                    Some(kind) => {
                        let rt = t / 8;
                        let promotion = kind == PieceType::Pawn && (rt == 0 || rt == 7);
                        if pseudo_legal_test(self, kind, by, s, t, promotion, false) {
                            proof {
                                assert(s < 64 && self.color_at(s) == Some(by) && attacks(
                                    *self,
                                    s,
                                    t,
                                ));
                            }
                            return true;
                        }
                    },
                    None => {},
                }
            }
            s = s + 1;
        }
        false
    }

    /// Whether the king of `side` stands attacked by the other side.
    pub fn is_king_attacked(&self, side: Color) -> (r: bool)
        ensures
            r == king_attacked(*self, side),
    {
        let own = color_mask_of(self, side);
        let mut k: u64 = 0;
        while k < 64
            invariant
                k <= 64,
                own == self.color_mask(side),
                forall|j: u64|
                    j < k ==> !(bit64(self.kings, j) && bit64(self.color_mask(side), j)
                        && square_attacked(*self, j, side.spec_other())),
            decreases 64 - k,
        {
            if (self.kings >> k) & 1 == 1 && (own >> k) & 1 == 1 {
                if self.is_square_attacked(k, side.other()) {
                    proof {
                        assert(k < 64 && bit64(self.kings, k) && bit64(self.color_mask(side), k)
                            && square_attacked(*self, k, side.spec_other()));
                    }
                    return true;
                }
            }
            k = k + 1;
        }
        false
    }
}

} // verus!
