use bitboard_chess::board::Board;
use bitboard_chess::piece::{Color, Move, PieceType};
use bitboard_chess::square::Square;

fn bit(s: Square) -> u64 {
    1u64 << s.index()
}

#[test]
fn starting_position_population() {
    let b = Board::default();
    assert_eq!(b.light_pieces.count_ones(), 16);
    assert_eq!(b.dark_pieces.count_ones(), 16);
    assert_eq!((b.pawns & b.light_pieces).count_ones(), 8);
    assert_eq!((b.pawns & b.dark_pieces).count_ones(), 8);
    assert_eq!((b.knights & b.light_pieces).count_ones(), 2);
    assert_eq!((b.knights & b.dark_pieces).count_ones(), 2);
    assert_eq!((b.bishops & b.light_pieces).count_ones(), 2);
    assert_eq!((b.bishops & b.dark_pieces).count_ones(), 2);
    assert_eq!((b.rooks & b.light_pieces).count_ones(), 2);
    assert_eq!((b.rooks & b.dark_pieces).count_ones(), 2);
    assert_eq!((b.queens & b.light_pieces).count_ones(), 1);
    assert_eq!((b.queens & b.dark_pieces).count_ones(), 1);
    assert_eq!((b.kings & b.light_pieces).count_ones(), 1);
    assert_eq!((b.kings & b.dark_pieces).count_ones(), 1);
}

fn assert_masks_consistent(b: &Board) {
    assert_eq!(b.light_pieces & b.dark_pieces, 0);
    let kinds = [b.pawns, b.knights, b.bishops, b.rooks, b.queens, b.kings];
    for (x, a) in kinds.iter().enumerate() {
        for (y, c) in kinds.iter().enumerate() {
            if x != y {
                assert_eq!(a & c, 0);
            }
        }
    }
    assert_eq!(
        b.pawns | b.knights | b.bishops | b.rooks | b.queens | b.kings,
        b.light_pieces | b.dark_pieces
    );
}

#[test]
fn masks_stay_consistent_over_a_game_opening() {
    let mut b = Board::default();
    assert_masks_consistent(&b);
    let plies = [
        (Square::E2, Square::E4),
        (Square::E7, Square::E5),
        (Square::G1, Square::F3),
        (Square::B8, Square::C6),
        (Square::F1, Square::B5),
        (Square::G8, Square::F6),
    ];
    for (from, to) in plies {
        let m = b.create_move(from, to).expect("a piece stands on the origin");
        assert!(b.is_move_valid(&m), "opening ply should be legal");
        b.make_move(&m);
        assert_masks_consistent(&b);
    }
    assert_eq!(
        (b.light_pieces | b.dark_pieces).count_ones(),
        32,
        "no capture happened"
    );
}

#[test]
fn pawn_cannot_jump_three_ranks() {
    let b = Board::default();
    let m = b.create_move(Square::B2, Square::B5).expect("a pawn stands on b2");
    assert_eq!(m.piece_type, PieceType::Pawn);
    assert!(!b.is_move_valid(&m));
}

#[test]
fn pawn_double_push_is_legal() {
    let b = Board::default();
    let m = b.create_move(Square::B2, Square::B4).expect("a pawn stands on b2");
    assert_eq!(m.piece_type, PieceType::Pawn);
    assert!(!m.capture);
    assert_eq!(m.promotion, None);
    assert!(b.is_move_valid(&m));
}

#[test]
fn pawn_double_push_blocked_by_skipped_square() {
    // A dark knight on b3 blocks the light b-pawn's double push.
    let b = Board::from_masks(
        bit(Square::B2) | bit(Square::E1),
        bit(Square::B3) | bit(Square::E8),
        bit(Square::B2),
        bit(Square::B3),
        0,
        0,
        0,
        bit(Square::E1) | bit(Square::E8),
    )
    .expect("masks are consistent");
    let m = b.create_move(Square::B2, Square::B4).expect("a pawn stands on b2");
    assert!(!b.is_move_valid(&m));
}

#[test]
fn from_masks_rejects_overlapping_colors() {
    assert!(Board::from_masks(
        bit(Square::E4),
        bit(Square::E4),
        bit(Square::E4),
        0,
        0,
        0,
        0,
        0
    )
    .is_none());
}

#[test]
fn from_masks_rejects_piece_without_kind() {
    assert!(Board::from_masks(bit(Square::E4), 0, 0, 0, 0, 0, 0, 0).is_none());
}

#[test]
fn create_move_returns_none_on_empty_origin() {
    let b = Board::default();
    assert!(b.create_move(Square::E4, Square::E5).is_none());
}

#[test]
fn create_move_flags_captures() {
    // Light rook on d4, dark pawn on d7.
    let b = Board::from_masks(
        bit(Square::D4) | bit(Square::E1),
        bit(Square::D7) | bit(Square::E8),
        bit(Square::D7),
        0,
        0,
        bit(Square::D4),
        0,
        bit(Square::E1) | bit(Square::E8),
    )
    .expect("masks are consistent");
    let m = b.create_move(Square::D4, Square::D7).expect("a rook stands on d4");
    assert_eq!(m.piece_type, PieceType::Rook);
    assert!(m.capture);
    let quiet = b.create_move(Square::D4, Square::D5).expect("a rook stands on d4");
    assert!(!quiet.capture);
}

#[test]
fn pawn_reaching_last_rank_proposes_queen() {
    // Light pawn on a7 about to promote.
    let b = Board::from_masks(
        bit(Square::A7) | bit(Square::E1),
        bit(Square::E8),
        bit(Square::A7),
        0,
        0,
        0,
        0,
        bit(Square::E1) | bit(Square::E8),
    )
    .expect("masks are consistent");
    let m = b.create_move(Square::A7, Square::A8).expect("a pawn stands on a7");
    assert_eq!(m.piece_type, PieceType::Pawn);
    assert_eq!(m.promotion, Some(PieceType::Queen));
    assert!(b.is_move_valid(&m));
}

#[test]
fn promotion_kinds_queen_rook_bishop_knight_accepted() {
    let b = Board::from_masks(
        bit(Square::A7) | bit(Square::E1),
        bit(Square::E8),
        bit(Square::A7),
        0,
        0,
        0,
        0,
        bit(Square::E1) | bit(Square::E8),
    )
    .expect("masks are consistent");
    for kind in [
        PieceType::Queen,
        PieceType::Rook,
        PieceType::Bishop,
        PieceType::Knight,
    ] {
        let m = Move {
            from: Square::A7,
            to: Square::A8,
            piece_type: PieceType::Pawn,
            capture: false,
            promotion: Some(kind),
            en_passant: false,
        };
        assert!(b.is_move_valid(&m), "promotion to {:?} is legal", kind);
    }
}

#[test]
fn promotion_kinds_king_and_pawn_rejected() {
    let b = Board::from_masks(
        bit(Square::A7) | bit(Square::E1),
        bit(Square::E8),
        bit(Square::A7),
        0,
        0,
        0,
        0,
        bit(Square::E1) | bit(Square::E8),
    )
    .expect("masks are consistent");
    for kind in [PieceType::King, PieceType::Pawn] {
        let m = Move {
            from: Square::A7,
            to: Square::A8,
            piece_type: PieceType::Pawn,
            capture: false,
            promotion: Some(kind),
            en_passant: false,
        };
        assert!(!b.is_move_valid(&m), "promotion to {:?} is illegal", kind);
    }
}

#[test]
fn self_capture_is_rejected() {
    let b = Board::default();
    // The a1 rook onto its own a2 pawn: a pseudo-legal rook line, but a
    // friendly destination.
    let m = b.create_move(Square::A1, Square::A2).expect("a rook stands on a1");
    assert_eq!(m.piece_type, PieceType::Rook);
    assert!(m.capture);
    assert!(!b.is_move_valid(&m));
    // The g1 knight onto its own e2 pawn: also rejected.
    let n = b.create_move(Square::G1, Square::E2).expect("a knight stands on g1");
    assert!(!b.is_move_valid(&n));
}

#[test]
fn moving_a_pinned_piece_is_rejected() {
    // Light king e1, light rook e2 pinned by the dark rook on e8.
    let b = Board::from_masks(
        bit(Square::E1) | bit(Square::E2),
        bit(Square::E8) | bit(Square::A8),
        0,
        0,
        0,
        bit(Square::E2) | bit(Square::E8),
        0,
        bit(Square::E1) | bit(Square::A8),
    )
    .expect("masks are consistent");
    let pinned = b.create_move(Square::E2, Square::A2).expect("a rook stands on e2");
    assert_eq!(pinned.piece_type, PieceType::Rook);
    assert!(!b.is_move_valid(&pinned), "leaving the king exposed is illegal");
    // Along the pin line the same rook may move.
    let along = b.create_move(Square::E2, Square::E5).expect("a rook stands on e2");
    assert!(b.is_move_valid(&along));
    // Without the pinning rook the sideways move is legal: the shape was
    // never the problem.
    let free = Board::from_masks(
        bit(Square::E1) | bit(Square::E2),
        bit(Square::A8),
        0,
        0,
        0,
        bit(Square::E2),
        0,
        bit(Square::E1) | bit(Square::A8),
    )
    .expect("masks are consistent");
    let sideways = free.create_move(Square::E2, Square::A2).expect("a rook stands on e2");
    assert!(free.is_move_valid(&sideways));
}

#[test]
fn king_may_not_step_into_a_knight_check() {
    // Light king e1; a dark knight on f3 covers d2 and e1's neighbours.
    let b = Board::from_masks(
        bit(Square::E1),
        bit(Square::F3) | bit(Square::A8),
        0,
        bit(Square::F3),
        0,
        0,
        0,
        bit(Square::E1) | bit(Square::A8),
    )
    .expect("masks are consistent");
    let into_check = b.create_move(Square::E1, Square::D2).expect("the king stands on e1");
    assert_eq!(into_check.piece_type, PieceType::King);
    assert!(!b.is_move_valid(&into_check), "d2 is covered by the f3 knight");
    let safe = b.create_move(Square::E1, Square::F1).expect("the king stands on e1");
    assert!(b.is_move_valid(&safe));
}

#[test]
fn capture_changes_population_counts_by_one() {
    // Light pawn d4 takes the dark pawn on e5.
    let mut b = Board::from_masks(
        bit(Square::D4) | bit(Square::E1),
        bit(Square::E5) | bit(Square::E8),
        bit(Square::D4) | bit(Square::E5),
        0,
        0,
        0,
        0,
        bit(Square::E1) | bit(Square::E8),
    )
    .expect("masks are consistent");
    let m = b.create_move(Square::D4, Square::E5).expect("a pawn stands on d4");
    assert!(m.capture);
    assert!(b.is_move_valid(&m));
    let light_before = b.light_pieces.count_ones();
    let dark_before = b.dark_pieces.count_ones();
    let total_before = (b.light_pieces | b.dark_pieces).count_ones();
    b.make_move(&m);
    assert_eq!(b.light_pieces.count_ones(), light_before);
    assert_eq!(b.dark_pieces.count_ones(), dark_before - 1);
    assert_eq!(
        (b.light_pieces | b.dark_pieces).count_ones(),
        total_before - 1
    );
    assert_eq!(b.light_pieces & bit(Square::D4), 0, "the origin bit is cleared");
    assert_ne!(b.light_pieces & bit(Square::E5), 0, "the destination bit is set");
    assert_ne!(b.pawns & bit(Square::E5), 0);
    assert_masks_consistent(&b);
}

#[test]
fn quiet_move_keeps_population_counts() {
    let mut b = Board::default();
    let m = b.create_move(Square::G1, Square::F3).expect("a knight stands on g1");
    assert!(!m.capture);
    assert!(b.is_move_valid(&m));
    let total_before = (b.light_pieces | b.dark_pieces).count_ones();
    b.make_move(&m);
    assert_eq!((b.light_pieces | b.dark_pieces).count_ones(), total_before);
    assert_ne!(b.knights & bit(Square::F3), 0);
    assert_eq!(b.knights & bit(Square::G1), 0);
    assert_masks_consistent(&b);
}

#[test]
fn en_passant_removes_the_bypassed_pawn() {
    // Light pawn e5 beside the dark pawn on d5, as after a double push.
    let mut b = Board::from_masks(
        bit(Square::E5) | bit(Square::E1),
        bit(Square::D5) | bit(Square::E8),
        bit(Square::E5) | bit(Square::D5),
        0,
        0,
        0,
        0,
        bit(Square::E1) | bit(Square::E8),
    )
    .expect("masks are consistent");
    let m = Move {
        from: Square::E5,
        to: Square::D6,
        piece_type: PieceType::Pawn,
        capture: false,
        promotion: None,
        en_passant: true,
    };
    assert!(b.is_move_valid(&m));
    let total_before = (b.light_pieces | b.dark_pieces).count_ones();
    b.make_move(&m);
    assert_eq!(
        (b.light_pieces | b.dark_pieces).count_ones(),
        total_before - 1
    );
    assert_eq!(b.pawns & bit(Square::D5), 0, "the bypassed pawn is removed");
    assert_ne!(b.pawns & bit(Square::D6), 0, "the capturing pawn lands on d6");
    assert_eq!(b.dark_pieces & bit(Square::D5), 0);
    assert_masks_consistent(&b);
}

#[test]
fn en_passant_needs_a_victim_beside_the_pawn() {
    // Same shape, but no dark pawn on d5: the en-passant claim is illegal.
    let b = Board::from_masks(
        bit(Square::E5) | bit(Square::E1),
        bit(Square::E8),
        bit(Square::E5),
        0,
        0,
        0,
        0,
        bit(Square::E1) | bit(Square::E8),
    )
    .expect("masks are consistent");
    let m = Move {
        from: Square::E5,
        to: Square::D6,
        piece_type: PieceType::Pawn,
        capture: false,
        promotion: None,
        en_passant: true,
    };
    assert!(!b.is_move_valid(&m));
}

#[test]
fn knight_destinations_from_the_initial_corner() {
    let b = Board::default();
    // Pseudo-legal knight jumps from b1: a3, c3 and d2; d2 holds a friendly
    // pawn, which the later self-capture check rejects, not this set.
    let mask = PieceType::Knight.moves_from(&b, Square::B1, Color::Light, false, false);
    assert_eq!(
        mask,
        bit(Square::A3) | bit(Square::C3) | bit(Square::D2)
    );
}

#[test]
fn rook_rays_stop_at_blockers() {
    // Light rook d4; own pawn d6 and a dark pawn f4.
    let b = Board::from_masks(
        bit(Square::D4) | bit(Square::D6) | bit(Square::E1),
        bit(Square::F4) | bit(Square::E8),
        bit(Square::D6) | bit(Square::F4),
        0,
        0,
        bit(Square::D4),
        0,
        bit(Square::E1) | bit(Square::E8),
    )
    .expect("masks are consistent");
    let mask = PieceType::Rook.moves_from(&b, Square::D4, Color::Light, false, false);
    let expected = bit(Square::D5) // up, stopping under the own pawn on d6
        | bit(Square::D3) | bit(Square::D2) | bit(Square::D1) // down
        | bit(Square::C4) | bit(Square::B4) | bit(Square::A4) // left
        | bit(Square::E4) | bit(Square::F4); // right, taking the dark pawn
    assert_eq!(mask, expected);
}

#[test]
fn bishop_moves_along_diagonals_only() {
    // A lone light bishop on c1 over an otherwise empty board.
    let b = Board::from_masks(
        bit(Square::C1) | bit(Square::H1),
        bit(Square::H8),
        0,
        0,
        bit(Square::C1),
        0,
        0,
        bit(Square::H1) | bit(Square::H8),
    )
    .expect("masks are consistent");
    let mask = PieceType::Bishop.moves_from(&b, Square::C1, Color::Light, false, false);
    let expected = bit(Square::B2) | bit(Square::A3) | bit(Square::D2) | bit(Square::E3)
        | bit(Square::F4) | bit(Square::G5) | bit(Square::H6);
    assert_eq!(mask, expected);
}

#[test]
fn try_move_runs_the_whole_pipeline() {
    let mut b = Board::default();
    assert!(!b.try_move(Square::B2, Square::B5), "a pawn cannot jump three ranks");
    assert!(!b.try_move(Square::E4, Square::E5), "no piece stands on e4");
    assert_eq!(b.render(), Board::default().render(), "rejections leave the board unchanged");
    assert!(b.try_move(Square::B2, Square::B4));
    assert_ne!(b.pawns & bit(Square::B4), 0);
    assert_eq!(b.pawns & bit(Square::B2), 0);
    assert_masks_consistent(&b);
}

#[test]
fn make_move_applies_promotion_kind() {
    let mut b = Board::from_masks(
        bit(Square::A7) | bit(Square::E1),
        bit(Square::E8),
        bit(Square::A7),
        0,
        0,
        0,
        0,
        bit(Square::E1) | bit(Square::E8),
    )
    .expect("masks are consistent");
    let m = b.create_move(Square::A7, Square::A8).expect("a pawn stands on a7");
    assert!(b.is_move_valid(&m));
    b.make_move(&m);
    assert_eq!(b.pawns, 0, "the promoted pawn leaves the pawn mask");
    assert_ne!(b.queens & bit(Square::A8), 0, "a queen appears on a8");
    assert_masks_consistent(&b);
}
