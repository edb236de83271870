//! A deterministic text depiction of the position.
//!
//! Eight ranks top to bottom (rank 8 first), each prefixed by its rank
//! digit; every square is two characters, an uppercase piece letter and `+`
//! for light, a lowercase letter and `-` for dark, or blanks when empty; a
//! file-letter legend row trails.

use vstd::prelude::*;
use crate::board::{color_at_test, kind_at_test, Board};
use crate::piece::{Color, PieceType};

verus! {

/// The two characters depicting one square: a piece letter (uppercase for
/// light, lowercase for dark) and a side mark (`+` light, `-` dark), or
/// two blanks for an empty square.
pub open spec fn cell_chars(board: Board, i: u64) -> Seq<char> {
    match (board.color_at(i), board.kind_at(i)) {
        (Some(Color::Light), Some(PieceType::Pawn)) => seq!['P', '+'],
        (Some(Color::Light), Some(PieceType::Knight)) => seq!['N', '+'],
        (Some(Color::Light), Some(PieceType::Bishop)) => seq!['B', '+'],
        (Some(Color::Light), Some(PieceType::Rook)) => seq!['R', '+'],
        (Some(Color::Light), Some(PieceType::Queen)) => seq!['Q', '+'],
        (Some(Color::Light), Some(PieceType::King)) => seq!['K', '+'],
        (Some(Color::Dark), Some(PieceType::Pawn)) => seq!['p', '-'],
        (Some(Color::Dark), Some(PieceType::Knight)) => seq!['n', '-'],
        (Some(Color::Dark), Some(PieceType::Bishop)) => seq!['b', '-'],
        (Some(Color::Dark), Some(PieceType::Rook)) => seq!['r', '-'],
        (Some(Color::Dark), Some(PieceType::Queen)) => seq!['q', '-'],
        (Some(Color::Dark), Some(PieceType::King)) => seq!['k', '-'],
        _ => seq![' ', ' '],
    }
}

/// The rank digit and a space that prefix the row of rank index `r`.
pub open spec fn rank_label(r: u64) -> Seq<char> {
    match r {
        0 => seq!['1', ' '],
        1 => seq!['2', ' '],
        2 => seq!['3', ' '],
        3 => seq!['4', ' '],
        4 => seq!['5', ' '],
        5 => seq!['6', ' '],
        6 => seq!['7', ' '],
        _ => seq!['8', ' '],
    }
}

/// The cells of the first `n` files of rank index `r`, left to right.
pub open spec fn row_cells(board: Board, r: u64, n: u64) -> Seq<char>
    decreases n,
{
    if n == 0 {
        Seq::empty()
    } else {
        row_cells(board, r, (n - 1) as u64) + cell_chars(board, (r * 8 + n - 1) as u64)
    }
}

/// One full row: the rank label, the eight cells, and a newline.
pub open spec fn row_text(board: Board, r: u64) -> Seq<char> {
    rank_label(r) + row_cells(board, r, 8) + seq!['\n']
}

/// The first `n` rows of the rendering, top to bottom: ranks 8 down.
pub open spec fn rows_text(board: Board, n: u64) -> Seq<char>
    decreases n,
{
    if n == 0 {
        Seq::empty()
    } else {
        rows_text(board, (n - 1) as u64) + row_text(board, (8 - n) as u64)
    }
}

/// The trailing file-letter legend row.
pub open spec fn legend_text() -> Seq<char> {
    seq![' ', ' ', 'a', ' ', 'b', ' ', 'c', ' ', 'd', ' ', 'e', ' ', 'f', ' ', 'g', ' ', 'h', '\n']
}

/// The whole rendering: eight rows, rank 8 first, then the legend.
pub open spec fn board_text(board: Board) -> Seq<char> {
    rows_text(board, 8) + legend_text()
}

fn cell_str(board: &Board, i: u64) -> (cell: &'static str)
    requires
        i < 64,
    ensures
        cell@ == cell_chars(*board, i),
{
    let color = color_at_test(board, i);
    let kind = kind_at_test(board, i);
    proof {
        reveal_strlit("P+");
        reveal_strlit("N+");
        reveal_strlit("B+");
        reveal_strlit("R+");
        reveal_strlit("Q+");
        reveal_strlit("K+");
        reveal_strlit("p-");
        reveal_strlit("n-");
        reveal_strlit("b-");
        reveal_strlit("r-");
        reveal_strlit("q-");
        reveal_strlit("k-");
        reveal_strlit("  ");
    }
    match (color, kind) {
        (Some(Color::Light), Some(PieceType::Pawn)) => "P+",
        (Some(Color::Light), Some(PieceType::Knight)) => "N+",
        (Some(Color::Light), Some(PieceType::Bishop)) => "B+",
        (Some(Color::Light), Some(PieceType::Rook)) => "R+",
        (Some(Color::Light), Some(PieceType::Queen)) => "Q+",
        (Some(Color::Light), Some(PieceType::King)) => "K+",
        (Some(Color::Dark), Some(PieceType::Pawn)) => "p-",
        (Some(Color::Dark), Some(PieceType::Knight)) => "n-",
        (Some(Color::Dark), Some(PieceType::Bishop)) => "b-",
        (Some(Color::Dark), Some(PieceType::Rook)) => "r-",
        (Some(Color::Dark), Some(PieceType::Queen)) => "q-",
        (Some(Color::Dark), Some(PieceType::King)) => "k-",
        _ => "  ",
    }
}

fn rank_label_str(r: u64) -> (label: &'static str)
    requires
        r < 8,
    ensures
        label@ == rank_label(r),
{
    proof {
        reveal_strlit("1 ");
        reveal_strlit("2 ");
        reveal_strlit("3 ");
        reveal_strlit("4 ");
        reveal_strlit("5 ");
        reveal_strlit("6 ");
        reveal_strlit("7 ");
        reveal_strlit("8 ");
    }
    match r {
        0 => "1 ",
        1 => "2 ",
        2 => "3 ",
        3 => "4 ",
        4 => "5 ",
        5 => "6 ",
        6 => "7 ",
        _ => "8 ",
    }
}

impl Board {
    /// The deterministic multi-line text depiction of the position: eight
    /// ranks top to bottom, then a file-letter legend row. Pure; the board
    /// is not changed.
    pub fn render(&self) -> (s: String)
        ensures
            s@ == board_text(*self),
    {
        let mut s = String::new();
        let mut row: u64 = 0;
        while row < 8
            invariant
                row <= 8,
                s@ == rows_text(*self, row),
            decreases 8 - row,
        {
            let r = 7 - row;
            let ghost row_start = s@;
            s.append(rank_label_str(r));
            let mut file: u64 = 0;
            while file < 8
                invariant
                    file <= 8,
                    r == 7 - row,
                    row < 8,
                    s@ == row_start + rank_label(r) + row_cells(*self, r, file),
                decreases 8 - file,
            {
                let i = r * 8 + file;
                s.append(cell_str(self, i));
                proof {
                    assert(s@ =~= row_start + rank_label(r) + row_cells(*self, r, (file
                        + 1) as u64));
                }
                file = file + 1;
            }
            proof {
                reveal_strlit("\n");
            }
            s.append("\n");
            proof {
                assert(("\n")@ =~= seq!['\n']);
                assert(s@ =~= row_start + row_text(*self, r));
                assert(s@ =~= rows_text(*self, (row + 1) as u64));
            }
            row = row + 1;
        }
        proof {
            reveal_strlit("  a b c d e f g h\n");
        }
        s.append("  a b c d e f g h\n");
        proof {
            assert(("  a b c d e f g h\n")@ =~= legend_text());
            assert(s@ =~= board_text(*self));
        }
        s
    }
}

} // verus!
