use bitboard_chess::board::Board;
use bitboard_chess::piece::Color;
use bitboard_chess::square::Square;

fn bit(s: Square) -> u64 {
    1u64 << s.index()
}

#[test]
fn rook_attacks_along_open_lines_only() {
    // Dark rook on d8, light king e1, dark king a8.
    let b = Board::from_masks(
        bit(Square::E1),
        bit(Square::D8) | bit(Square::A8),
        0,
        0,
        0,
        bit(Square::D8),
        0,
        bit(Square::E1) | bit(Square::A8),
    )
    .expect("masks are consistent");
    assert!(b.is_square_attacked(Square::D1.index(), Color::Dark));
    assert!(b.is_square_attacked(Square::H8.index(), Color::Dark));
    assert!(!b.is_square_attacked(Square::E4.index(), Color::Dark));
}

#[test]
fn pawns_attack_diagonally_not_forward() {
    // A dark pawn on d5 attacks the light knights on c4 and e4 but not the
    // light pawn straight ahead of it on d4: a pawn's pseudo-legal
    // destinations include diagonals onto enemy pieces, never a blocked
    // push.
    let b = Board::from_masks(
        bit(Square::C4) | bit(Square::E4) | bit(Square::D4) | bit(Square::E1),
        bit(Square::D5) | bit(Square::A8),
        bit(Square::D5) | bit(Square::D4),
        bit(Square::C4) | bit(Square::E4),
        0,
        0,
        0,
        bit(Square::E1) | bit(Square::A8),
    )
    .expect("masks are consistent");
    assert!(b.is_square_attacked(Square::C4.index(), Color::Dark));
    assert!(b.is_square_attacked(Square::E4.index(), Color::Dark));
    assert!(!b.is_square_attacked(Square::D4.index(), Color::Dark));
}

#[test]
fn king_attack_detection_sees_through_nothing() {
    // Dark rook on e8 checks the light king on e1 across an empty file.
    let checked = Board::from_masks(
        bit(Square::E1),
        bit(Square::E8) | bit(Square::A8),
        0,
        0,
        0,
        bit(Square::E8),
        0,
        bit(Square::E1) | bit(Square::A8),
    )
    .expect("masks are consistent");
    assert!(checked.is_king_attacked(Color::Light));
    assert!(!checked.is_king_attacked(Color::Dark));
    // A light pawn on e2 blocks the ray.
    let shielded = Board::from_masks(
        bit(Square::E1) | bit(Square::E2),
        bit(Square::E8) | bit(Square::A8),
        bit(Square::E2),
        0,
        0,
        bit(Square::E8),
        0,
        bit(Square::E1) | bit(Square::A8),
    )
    .expect("masks are consistent");
    assert!(!shielded.is_king_attacked(Color::Light));
}
