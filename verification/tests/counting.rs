use bitboard_chess::bits::popcount;

#[test]
fn popcount_agrees_with_the_standard_library() {
    let samples = [
        0u64,
        1,
        2,
        3,
        0xFF,
        0x8000_0000_0000_0000,
        0xFFFF_0000_0000_0000,
        0x0000_0000_0000_FFFF,
        0x8040_2010_0804_0201,
        0x5555_5555_5555_5555,
        u64::MAX,
    ];
    for m in samples {
        assert_eq!(popcount(m), u64::from(m.count_ones()));
    }
}

#[test]
fn popcount_of_single_bits_is_one() {
    for i in 0..64u64 {
        assert_eq!(popcount(1u64 << i), 1);
    }
}
