//! Move legality and the state transition that applies an accepted move.

use vstd::prelude::*;
use crate::bits::{bit64, lemma_bit_clear, lemma_bit_set};
use crate::board::{classified_move, color_at_test, Board};
use crate::square::Square;
use crate::movegen::{
    en_passant_victim, king_attacked, pseudo_legal, pseudo_legal_test, promotion_rank,
};
use crate::piece::{Color, Move, PieceType};

verus! {

/// `mask` with bit `c` cleared.
pub open spec fn cleared_mask(mask: u64, c: u64) -> u64 {
    mask & !(1u64 << c)
}

/// `mask` with bit `f` cleared and bit `t` set: the mover's color mask
/// after the move.
pub open spec fn moved_mask(mask: u64, f: u64, t: u64) -> u64 {
    (mask & !(1u64 << f)) | (1u64 << t)
}

/// One piece-kind mask after the move: the captured square's bit cleared
/// when the move removes an enemy piece, the origin bit cleared when this
/// is the moving kind's mask, and the destination bit set when this is the
/// kind the moved piece ends up as.
pub open spec fn updated_kind_mask(
    mask: u64,
    is_source: bool,
    is_destination: bool,
    removes_enemy: bool,
    f: u64,
    t: u64,
    c: u64,
) -> u64 {
    let after_capture = if removes_enemy {
        cleared_mask(mask, c)
    } else {
        mask
    };
    let after_lift = if is_source {
        cleared_mask(after_capture, f)
    } else {
        after_capture
    };
    if is_destination {
        after_lift | (1u64 << t)
    } else {
        after_lift
    }
}

/// The kind the moved piece ends up as: the promotion kind if one is
/// declared, the moving kind otherwise.
pub open spec fn landed_kind(m: Move) -> PieceType {
    match m.promotion {
        Some(p) => p,
        None => m.piece_type,
    }
}

/// The square whose occupant the move removes: the bypassed pawn square
/// for en passant, the destination otherwise.
pub open spec fn removal_square(m: Move) -> u64 {
    if m.en_passant {
        en_passant_victim(m.from.idx(), m.to.idx())
    } else {
        m.to.idx()
    }
}

/// The position after applying `m` to `board`: the origin bit moves to the
/// destination in the mover's color mask and from the moving kind's mask to
/// the landed kind's mask; a capture (or en-passant capture) clears the
/// removed piece's bit in the opposing color mask and its kind mask. A move
/// whose origin square is empty leaves the board unchanged.
pub open spec fn spec_apply(board: Board, m: Move) -> Board {
    match board.color_at(m.from.idx()) {
        None => board,
        Some(side) => {
            let f = m.from.idx();
            let t = m.to.idx();
            let c = removal_square(m);
            let removes = m.capture || m.en_passant;
            let src = m.piece_type;
            let dst = landed_kind(m);
            Board {
                light_pieces: if side == Color::Light {
                    moved_mask(board.light_pieces, f, t)
                } else if removes {
                    cleared_mask(board.light_pieces, c)
                } else {
                    board.light_pieces
                },
                dark_pieces: if side == Color::Dark {
                    moved_mask(board.dark_pieces, f, t)
                } else if removes {
                    cleared_mask(board.dark_pieces, c)
                } else {
                    board.dark_pieces
                },
                pawns: updated_kind_mask(
                    board.pawns,
                    src == PieceType::Pawn,
                    dst == PieceType::Pawn,
                    removes,
                    f,
                    t,
                    c,
                ),
                knights: updated_kind_mask(
                    board.knights,
                    src == PieceType::Knight,
                    dst == PieceType::Knight,
                    removes,
                    f,
                    t,
                    c,
                ),
                bishops: updated_kind_mask(
                    board.bishops,
                    src == PieceType::Bishop,
                    dst == PieceType::Bishop,
                    removes,
                    f,
                    t,
                    c,
                ),
                rooks: updated_kind_mask(
                    board.rooks,
                    src == PieceType::Rook,
                    dst == PieceType::Rook,
                    removes,
                    f,
                    t,
                    c,
                ),
                queens: updated_kind_mask(
                    board.queens,
                    src == PieceType::Queen,
                    dst == PieceType::Queen,
                    removes,
                    f,
                    t,
                    c,
                ),
                kings: updated_kind_mask(
                    board.kings,
                    src == PieceType::King,
                    dst == PieceType::King,
                    removes,
                    f,
                    t,
                    c,
                ),
                a_file: board.a_file,
                h_file: board.h_file,
                first_rank: board.first_rank,
                eighth_rank: board.eighth_rank,
                a1_h8_diagonal: board.a1_h8_diagonal,
                h1_a8_anti_diagonal: board.h1_a8_anti_diagonal,
            }
        },
    }
}

/// Whether `m` agrees with what stands on the board: the declared kind is
/// the kind on the origin square, the capture flag is declared exactly when
/// the destination is occupied, and a declared promotion is a pawn reaching
/// the first or eighth rank. `Board::create_move` produces exactly such
/// moves.
pub open spec fn move_consistent(board: Board, m: Move) -> bool {
    &&& board.occupied(m.from.idx())
    &&& board.kind_at(m.from.idx()) == Some(m.piece_type)
    &&& m.capture == board.occupied(m.to.idx())
    &&& (m.promotion is Some ==> m.piece_type == PieceType::Pawn && promotion_rank(m.to.idx()))
}

/// Whether `m` is legal on `board`: the destination does not hold a piece
/// of the moving side, the destination is pseudo-legal for the declared
/// kind and flags, applying the move does not leave the mover's king
/// attacked, and a declared promotion kind is one of queen, rook, bishop
/// or knight.
pub open spec fn valid_move(board: Board, m: Move) -> bool {
    let f = m.from.idx();
    let t = m.to.idx();
    &&& !(bit64(board.light_pieces, f) && bit64(board.light_pieces, t))
    &&& !(bit64(board.dark_pieces, f) && bit64(board.dark_pieces, t))
    &&& match board.color_at(f) {
        Some(side) => pseudo_legal(board, m.piece_type, side, f, t, m.promotion is Some, m.en_passant)
            && !king_attacked(spec_apply(board, m), side),
        None => false,
    }
    &&& match m.promotion {
        Some(p) => p != PieceType::King && p != PieceType::Pawn,
        None => true,
    }
}

impl Board {
    /// The position after `m`, as a fresh board; this position is not
    /// mutated. No legality check is made: `is_move_valid` layers the
    /// checks on top of this transition, and `make_move` demands them.
    pub fn apply_move(&self, m: &Move) -> (after: Board)
        ensures
            after == spec_apply(*self, *m),
    {
        let f = m.from.index();
        let t = m.to.index();
        let side = match color_at_test(self, f) {
            Some(side) => side,
            None => {
                return *self;
            },
        };
        let c = if m.en_passant {
            (f / 8) * 8 + t % 8
        } else {
            t
        };
        let removes = m.capture || m.en_passant;
        let dst = match m.promotion {
            Some(p) => p,
            None => m.piece_type,
        };
        let light_pieces = if side == Color::Light {
            (self.light_pieces & !(1u64 << f)) | (1u64 << t)
        } else if removes {
            self.light_pieces & !(1u64 << c)
        } else {
            self.light_pieces
        };
        let dark_pieces = if side == Color::Dark {
            (self.dark_pieces & !(1u64 << f)) | (1u64 << t)
        } else if removes {
            self.dark_pieces & !(1u64 << c)
        } else {
            self.dark_pieces
        };
        Board {
            light_pieces,
            dark_pieces,
            pawns: update_kind_mask_exec(
                self.pawns,
                m.piece_type == PieceType::Pawn,
                dst == PieceType::Pawn,
                removes,
                f,
                t,
                c,
            ),
            knights: update_kind_mask_exec(
                self.knights,
                m.piece_type == PieceType::Knight,
                dst == PieceType::Knight,
                removes,
                f,
                t,
                c,
            ),
            bishops: update_kind_mask_exec(
                self.bishops,
                m.piece_type == PieceType::Bishop,
                dst == PieceType::Bishop,
                removes,
                f,
                t,
                c,
            ),
            rooks: update_kind_mask_exec(
                self.rooks,
                m.piece_type == PieceType::Rook,
                dst == PieceType::Rook,
                removes,
                f,
                t,
                c,
            ),
            queens: update_kind_mask_exec(
                self.queens,
                m.piece_type == PieceType::Queen,
                dst == PieceType::Queen,
                removes,
                f,
                t,
                c,
            ),
            kings: update_kind_mask_exec(
                self.kings,
                m.piece_type == PieceType::King,
                dst == PieceType::King,
                removes,
                f,
                t,
                c,
            ),
            a_file: self.a_file,
            h_file: self.h_file,
            first_rank: self.first_rank,
            eighth_rank: self.eighth_rank,
            a1_h8_diagonal: self.a1_h8_diagonal,
            h1_a8_anti_diagonal: self.h1_a8_anti_diagonal,
        }
    }

    /// The legality gate: checks, in order, that the destination does not
    /// hold a piece of the moving side, that the destination is a
    /// pseudo-legal destination for the declared kind and flags, that
    /// applying the move to a scratch copy does not leave the mover's king
    /// attacked, and that a declared promotion kind is one of queen, rook,
    /// bishop or knight. Rejection leaves the board unmodified: the
    /// speculative application works on a discarded copy.
    pub fn is_move_valid(&self, m: &Move) -> (r: bool)
        ensures
            r == valid_move(*self, *m),
    {
        let f = m.from.index();
        let t = m.to.index();
        if (self.light_pieces >> f) & 1 == 1 && (self.light_pieces >> t) & 1 == 1 {
            return false;
        }
        if (self.dark_pieces >> f) & 1 == 1 && (self.dark_pieces >> t) & 1 == 1 {
            return false;
        }
        let side = match color_at_test(self, f) {
            Some(side) => side,
            None => {
                return false;
            },
        };
        if !pseudo_legal_test(self, m.piece_type, side, f, t, m.promotion.is_some(), m.en_passant) {
            return false;
        }
        let scratch = self.apply_move(m);
        if scratch.is_king_attacked(side) {
            return false;
        }
        match m.promotion {
            Some(p) => {
                if p == PieceType::King || p == PieceType::Pawn {
                    return false;
                }
            },
            None => {},
        }
        true
    }

    /// Applies the already-validated move `m`, mutating this position.
    /// Callers must go through `is_move_valid` first; the move must also
    /// agree with the board as `Board::create_move` built it. Under those
    /// conditions the transition keeps the board well-formed.
    pub fn make_move(&mut self, m: &Move)
        requires
            old(self).wf(),
            valid_move(*old(self), *m),
            move_consistent(*old(self), *m),
        ensures
            *final(self) == spec_apply(*old(self), *m),
            final(self).wf(),
    {
        proof {
            lemma_apply_preserves_wf(*self, *m);
        }
        let after = self.apply_move(m);
        *self = after;
    }

    /// The whole pipeline for one ply: classifies `from -> to`, validates
    /// it, and applies it when it is legal. Returns whether the move was
    /// applied; a rejected or unclassifiable ply leaves the board unchanged.
    pub fn try_move(&mut self, from: Square, to: Square) -> (applied: bool)
        requires
            old(self).wf(),
        ensures
            final(self).wf(),
            applied == (old(self).occupied(from.idx()) && valid_move(
                *old(self),
                classified_move(*old(self), from, to),
            )),
            applied ==> *final(self) == spec_apply(
                *old(self),
                classified_move(*old(self), from, to),
            ),
            !applied ==> *final(self) == *old(self),
    {
        let m = match self.create_move(from, to) {
            Some(m) => m,
            None => {
                return false;
            },
        };
        if !self.is_move_valid(&m) {
            return false;
        }
        proof {
            let f = from.idx();
            assert(self.kind_count(f) == 1);
        }
        self.make_move(&m);
        true
    }
}

fn update_kind_mask_exec(
    mask: u64,
    is_source: bool,
    is_destination: bool,
    removes_enemy: bool,
    f: u64,
    t: u64,
    c: u64,
) -> (r: u64)
    requires
        f < 64,
        t < 64,
        c < 64,
    ensures
        r == updated_kind_mask(mask, is_source, is_destination, removes_enemy, f, t, c),
{
    let after_capture = if removes_enemy {
        mask & !(1u64 << c)
    } else {
        mask
    };
    let after_lift = if is_source {
        after_capture & !(1u64 << f)
    } else {
        after_capture
    };
    if is_destination {
        after_lift | (1u64 << t)
    } else {
        after_lift
    }
}

proof fn lemma_moved_mask_bit(mask: u64, f: u64, t: u64, i: u64)
    requires
        f < 64,
        t < 64,
        i < 64,
    ensures
        bit64(moved_mask(mask, f, t), i) == ((bit64(mask, i) && i != f) || i == t),
{
    lemma_bit_clear(mask, f, i);
    lemma_bit_set(mask & !(1u64 << f), t, i);
}

proof fn lemma_updated_kind_mask_bit(
    mask: u64,
    is_source: bool,
    is_destination: bool,
    removes_enemy: bool,
    f: u64,
    t: u64,
    c: u64,
    i: u64,
)
    requires
        f < 64,
        t < 64,
        c < 64,
        i < 64,
    ensures
        bit64(updated_kind_mask(mask, is_source, is_destination, removes_enemy, f, t, c), i) == ((
        bit64(mask, i) && !(removes_enemy && i == c) && !(is_source && i == f)) || (is_destination
            && i == t)),
{
    let after_capture = if removes_enemy {
        cleared_mask(mask, c)
    } else {
        mask
    };
    let after_lift = if is_source {
        cleared_mask(after_capture, f)
    } else {
        after_capture
    };
    lemma_bit_clear(mask, c, i);
    lemma_bit_clear(after_capture, f, i);
    lemma_bit_set(after_lift, t, i);
}

/// How applying a move reads on one bit of each kind mask: the bit is set
/// afterwards when it was set before and is neither the removed square nor
/// the lifted origin, or when it is the destination of the landed kind.
pub proof fn lemma_kind_mask_bits(board: Board, m: Move, i: u64)
    requires
        i < 64,
        board.color_at(m.from.idx()) is Some,
    ensures
        forall|k: PieceType|
            #[trigger] bit64(spec_apply(board, m).kind_mask(k), i) == ((bit64(
                board.kind_mask(k),
                i,
            ) && !((m.capture || m.en_passant) && i == removal_square(m)) && !(k == m.piece_type
                && i == m.from.idx())) || (k == landed_kind(m) && i == m.to.idx())),
{
    let f = m.from.idx();
    let t = m.to.idx();
    let c = removal_square(m);
    let removes = m.capture || m.en_passant;
    assert(f < 64 && t < 64 && c < 64);
    assert forall|k: PieceType| #[trigger] bit64(spec_apply(board, m).kind_mask(k), i) == ((bit64(
        board.kind_mask(k),
        i,
    ) && !(removes && i == c) && !(k == m.piece_type && i == f)) || (k == landed_kind(m) && i
        == t)) by {
        lemma_updated_kind_mask_bit(
            board.kind_mask(k),
            m.piece_type == k,
            landed_kind(m) == k,
            removes,
            f,
            t,
            c,
            i,
        );
        assert(spec_apply(board, m).kind_mask(k) == updated_kind_mask(
            board.kind_mask(k),
            m.piece_type == k,
            landed_kind(m) == k,
            removes,
            f,
            t,
            c,
        ));
    }
}

/// Applying a move that passed the legality gate, and that agrees with the
/// board as `Board::create_move` built it, keeps the board well-formed: the
/// color masks stay disjoint and every occupied square stays set in exactly
/// one kind mask.
pub proof fn lemma_apply_preserves_wf(board: Board, m: Move)
    requires
        board.wf(),
        valid_move(board, m),
        move_consistent(board, m),
    ensures
        spec_apply(board, m).wf(),
{
    let f = m.from.idx();
    let t = m.to.idx();
    let c = removal_square(m);
    let side = board.color_at(f)->Some_0;
    let after = spec_apply(board, m);
    let removes = m.capture || m.en_passant;
    assert(f < 64 && t < 64 && c < 64);
    assert(f != t);
    assert(board.kind_count(f) == 1);
    assert(board.kind_count(t) == (if board.occupied(t) {
        1int
    } else {
        0int
    }));
    assert(board.kind_count(c) == (if board.occupied(c) {
        1int
    } else {
        0int
    }));
    if m.en_passant {
        assert(c != f && c != t);
        assert(bit64(board.color_mask(side.spec_other()), c) && bit64(board.pawns, c));
    }
    assert forall|i: u64|
        i < 64 implies (!(bit64(after.light_pieces, i) && bit64(after.dark_pieces, i)))
        && (#[trigger] after.kind_count(i)) == (if after.occupied(i) {
        1int
    } else {
        0int
    }) by {
        lemma_moved_mask_bit(board.light_pieces, f, t, i);
        lemma_moved_mask_bit(board.dark_pieces, f, t, i);
        lemma_bit_clear(board.light_pieces, c, i);
        lemma_bit_clear(board.dark_pieces, c, i);
        lemma_updated_kind_mask_bit(
            board.pawns,
            m.piece_type == PieceType::Pawn,
            landed_kind(m) == PieceType::Pawn,
            removes,
            f,
            t,
            c,
            i,
        );
        lemma_updated_kind_mask_bit(
            board.knights,
            m.piece_type == PieceType::Knight,
            landed_kind(m) == PieceType::Knight,
            removes,
            f,
            t,
            c,
            i,
        );
        lemma_updated_kind_mask_bit(
            board.bishops,
            m.piece_type == PieceType::Bishop,
            landed_kind(m) == PieceType::Bishop,
            removes,
            f,
            t,
            c,
            i,
        );
        lemma_updated_kind_mask_bit(
            board.rooks,
            m.piece_type == PieceType::Rook,
            landed_kind(m) == PieceType::Rook,
            removes,
            f,
            t,
            c,
            i,
        );
        lemma_updated_kind_mask_bit(
            board.queens,
            m.piece_type == PieceType::Queen,
            landed_kind(m) == PieceType::Queen,
            removes,
            f,
            t,
            c,
            i,
        );
        lemma_updated_kind_mask_bit(
            board.kings,
            m.piece_type == PieceType::King,
            landed_kind(m) == PieceType::King,
            removes,
            f,
            t,
            c,
            i,
        );
        assert(board.kind_count(i) == (if board.occupied(i) {
            1int
        } else {
            0int
        }));
        assert(!(bit64(board.light_pieces, i) && bit64(board.dark_pieces, i)));
    }
    assert forall|i: u64| i < 64 implies !(bit64(after.light_pieces, i) && bit64(
        after.dark_pieces,
        i,
    )) by {
        assert(after.kind_count(i) == (if after.occupied(i) {
            1int
        } else {
            0int
        }));
    }
    assert(after.geometry_fixed());
}

} // verus!
