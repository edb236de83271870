//! Engine-wide laws, stated and proved over the spec-level model.

use vstd::prelude::*;
use crate::bits::{
    bit64, lemma_bit_and, lemma_bit_clear, lemma_bit_or, lemma_eq_of_bits, lemma_popcnt_clear,
    lemma_popcnt_set, lemma_zero_of_bits, popcnt64,
};
use crate::board::Board;
use crate::moves::{
    cleared_mask, landed_kind, move_consistent, moved_mask, removal_square, spec_apply, valid_move,
};
use crate::piece::{Color, Move, PieceType};

verus! {

/// The union of the six piece-kind masks.
pub open spec fn kind_union(board: Board) -> u64 {
    board.pawns | board.knights | board.bishops | board.rooks | board.queens | board.kings
}

/// The side moving `m`: the side whose color mask holds the origin square.
pub open spec fn mover_side(board: Board, m: Move) -> Color {
    board.color_at(m.from.idx())->Some_0
}

proof fn lemma_kind_masks_disjoint(board: Board, a: PieceType, b: PieceType)
    requires
        board.wf(),
        a != b,
    ensures
        board.kind_mask(a) & board.kind_mask(b) == 0,
{
    assert forall|i: u64| i < 64 implies !bit64(board.kind_mask(a) & board.kind_mask(b), i) by {
        lemma_bit_and(board.kind_mask(a), board.kind_mask(b), i);
        assert(board.kind_count(i) == (if board.occupied(i) {
            1int
        } else {
            0int
        }));
    }
    lemma_zero_of_bits(board.kind_mask(a) & board.kind_mask(b));
}

/// On a well-formed board the mask invariants hold in equation form: the
/// two color masks are disjoint, the six kind masks are pairwise disjoint,
/// and the union of the kind masks is exactly the occupancy. Together with
/// the contracts of `Board::default` and `Board::make_move` this holds of
/// every position reached from the initial one by accepted moves.
pub proof fn lemma_wf_mask_equations(board: Board)
    requires
        board.wf(),
    ensures
        board.light_pieces & board.dark_pieces == 0,
        forall|a: PieceType, b: PieceType|
            a != b ==> #[trigger] (board.kind_mask(a) & board.kind_mask(b)) == 0,
        kind_union(board) == board.light_pieces | board.dark_pieces,
{
    assert forall|i: u64| i < 64 implies !bit64(board.light_pieces & board.dark_pieces, i) by {
        lemma_bit_and(board.light_pieces, board.dark_pieces, i);
        assert(!(bit64(board.light_pieces, i) && bit64(board.dark_pieces, i)));
    }
    lemma_zero_of_bits(board.light_pieces & board.dark_pieces);
    assert forall|a: PieceType, b: PieceType| a != b implies #[trigger] (board.kind_mask(a)
        & board.kind_mask(b)) == 0 by {
        lemma_kind_masks_disjoint(board, a, b);
    }
    assert forall|i: u64| i < 64 implies bit64(kind_union(board), i) == bit64(
        board.light_pieces | board.dark_pieces,
        i,
    ) by {
        lemma_bit_or(board.pawns, board.knights, i);
        lemma_bit_or(board.pawns | board.knights, board.bishops, i);
        lemma_bit_or(board.pawns | board.knights | board.bishops, board.rooks, i);
        lemma_bit_or(board.pawns | board.knights | board.bishops | board.rooks, board.queens, i);
        lemma_bit_or(
            board.pawns | board.knights | board.bishops | board.rooks | board.queens,
            board.kings,
            i,
        );
        lemma_bit_or(board.light_pieces, board.dark_pieces, i);
        assert(board.kind_count(i) == (if board.occupied(i) {
            1int
        } else {
            0int
        }));
    }
    lemma_eq_of_bits(kind_union(board), board.light_pieces | board.dark_pieces);
}

/// The starting position holds sixteen pieces a side: eight pawns, two
/// knights, two bishops, two rooks, one queen and one king each.
pub proof fn lemma_start_population()
    by (bit_vector)
    ensures
        popcnt64(crate::board::START_LIGHT) == 16,
        popcnt64(crate::board::START_DARK) == 16,
        popcnt64(crate::board::START_PAWNS & crate::board::START_LIGHT) == 8,
        popcnt64(crate::board::START_PAWNS & crate::board::START_DARK) == 8,
        popcnt64(crate::board::START_KNIGHTS & crate::board::START_LIGHT) == 2,
        popcnt64(crate::board::START_KNIGHTS & crate::board::START_DARK) == 2,
        popcnt64(crate::board::START_BISHOPS & crate::board::START_LIGHT) == 2,
        popcnt64(crate::board::START_BISHOPS & crate::board::START_DARK) == 2,
        popcnt64(crate::board::START_ROOKS & crate::board::START_LIGHT) == 2,
        popcnt64(crate::board::START_ROOKS & crate::board::START_DARK) == 2,
        popcnt64(crate::board::START_QUEENS & crate::board::START_LIGHT) == 1,
        popcnt64(crate::board::START_QUEENS & crate::board::START_DARK) == 1,
        popcnt64(crate::board::START_KINGS & crate::board::START_LIGHT) == 1,
        popcnt64(crate::board::START_KINGS & crate::board::START_DARK) == 1,
{
}

/// A declared promotion to a king or a pawn is never legal, whatever the
/// position and whatever the rest of the move.
pub proof fn lemma_promotion_kind_rejected(board: Board, m: Move)
    requires
        m.promotion == Some(PieceType::King) || m.promotion == Some(PieceType::Pawn),
    ensures
        !valid_move(board, m),
{
}

/// A move whose destination holds a piece of the side occupying the origin
/// is never legal, whatever its pseudo-legal shape.
pub proof fn lemma_self_capture_rejected(board: Board, m: Move)
    requires
        (bit64(board.light_pieces, m.from.idx()) && bit64(board.light_pieces, m.to.idx())) || (
        bit64(board.dark_pieces, m.from.idx()) && bit64(board.dark_pieces, m.to.idx())),
    ensures
        !valid_move(board, m),
{
}

/// Applying a legal, board-consistent move changes the population counts
/// exactly as a move should: the origin bit leaves and the destination bit
/// enters the mover's masks, so the mover's piece count is unchanged; a
/// capture (plain or en passant) removes exactly one opposing piece, and
/// any other move leaves the opposing masks untouched.
pub proof fn lemma_population_counts(board: Board, m: Move)
    requires
        board.wf(),
        valid_move(board, m),
        move_consistent(board, m),
    ensures
        !bit64(spec_apply(board, m).color_mask(mover_side(board, m)), m.from.idx()),
        bit64(spec_apply(board, m).color_mask(mover_side(board, m)), m.to.idx()),
        !bit64(spec_apply(board, m).kind_mask(m.piece_type), m.from.idx()),
        bit64(spec_apply(board, m).kind_mask(landed_kind(m)), m.to.idx()),
        popcnt64(spec_apply(board, m).color_mask(mover_side(board, m))) == popcnt64(
            board.color_mask(mover_side(board, m)),
        ),
        (m.capture || m.en_passant) ==> popcnt64(
            spec_apply(board, m).color_mask(mover_side(board, m).spec_other()),
        ) + 1 == popcnt64(board.color_mask(mover_side(board, m).spec_other())),
        !(m.capture || m.en_passant) ==> spec_apply(board, m).color_mask(
            mover_side(board, m).spec_other(),
        ) == board.color_mask(mover_side(board, m).spec_other()),
        (m.capture || m.en_passant) ==> popcnt64(spec_apply(board, m).light_pieces) + popcnt64(
            spec_apply(board, m).dark_pieces,
        ) + 1 == popcnt64(board.light_pieces) + popcnt64(board.dark_pieces),
        !(m.capture || m.en_passant) ==> popcnt64(spec_apply(board, m).light_pieces) + popcnt64(
            spec_apply(board, m).dark_pieces,
        ) == popcnt64(board.light_pieces) + popcnt64(board.dark_pieces),
{
    let f = m.from.idx();
    let t = m.to.idx();
    let c = removal_square(m);
    let side = mover_side(board, m);
    let mover = board.color_mask(side);
    let enemy = board.color_mask(side.spec_other());
    let after = spec_apply(board, m);
    let removes = m.capture || m.en_passant;
    assert(f < 64 && t < 64 && c < 64);
    assert(f != t);
    assert(bit64(mover, f));
    assert(!bit64(mover, t));
    assert(after.color_mask(side) == moved_mask(mover, f, t));
    lemma_popcnt_clear(mover, f);
    lemma_bit_clear(mover, f, t);
    lemma_popcnt_set(cleared_mask(mover, f), t);
    assert forall|i: u64| i < 64 implies bit64(moved_mask(mover, f, t), i) == ((bit64(mover, i)
        && i != f) || i == t) by {
        lemma_bit_clear(mover, f, i);
        crate::bits::lemma_bit_set(cleared_mask(mover, f), t, i);
    }
    assert(bit64(after.kind_mask(m.piece_type), f) == false && bit64(
        after.kind_mask(landed_kind(m)),
        t,
    )) by {
        crate::moves::lemma_kind_mask_bits(board, m, f);
        crate::moves::lemma_kind_mask_bits(board, m, t);
    }
    if removes {
        assert(bit64(enemy, c));
        assert(after.color_mask(side.spec_other()) == cleared_mask(enemy, c));
        lemma_popcnt_clear(enemy, c);
    }
}

} // verus!
