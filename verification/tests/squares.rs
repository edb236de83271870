use bitboard_chess::square::Square;

#[test]
fn index_round_trips_for_all_indices() {
    for i in 0..64u64 {
        let s = Square::from_index(i).expect("indices below 64 name a square");
        assert_eq!(s.index(), i);
    }
}

#[test]
fn from_index_rejects_out_of_range() {
    assert!(Square::from_index(64).is_err());
    assert!(Square::from_index(65).is_err());
    assert!(Square::from_index(u64::MAX).is_err());
}

#[test]
fn named_squares_have_rank_file_indices() {
    assert_eq!(Square::A1.index(), 0);
    assert_eq!(Square::H1.index(), 7);
    assert_eq!(Square::B2.index(), 9);
    assert_eq!(Square::E4.index(), 28);
    assert_eq!(Square::A8.index(), 56);
    assert_eq!(Square::H8.index(), 63);
}
