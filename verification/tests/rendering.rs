use bitboard_chess::board::Board;
use bitboard_chess::square::Square;

#[test]
fn starting_position_renders_rank_eight_first() {
    let b = Board::default();
    let expected = "8 r-n-b-q-k-b-n-r-\n\
                    7 p-p-p-p-p-p-p-p-\n\
                    6\u{20}                \n\
                    5\u{20}                \n\
                    4\u{20}                \n\
                    3\u{20}                \n\
                    2 P+P+P+P+P+P+P+P+\n\
                    1 R+N+B+Q+K+B+N+R+\n\
                    \u{20} a b c d e f g h\n";
    assert_eq!(b.render(), expected);
}

#[test]
fn render_tracks_a_move() {
    let mut b = Board::default();
    let m = b.create_move(Square::E2, Square::E4).expect("a pawn stands on e2");
    assert!(b.is_move_valid(&m));
    b.make_move(&m);
    let text = b.render();
    let lines: Vec<&str> = text.lines().collect();
    assert_eq!(lines.len(), 9);
    assert_eq!(lines[4], "4         P+      ");
    assert_eq!(lines[6], "2 P+P+P+P+  P+P+P+");
}
