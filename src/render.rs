use vstd::prelude::*;

use crate::board::Board;
use crate::piece::{Color, Piece, Square};

verus! {

/// The glyph that paints a square's shade.
pub open spec fn shade_glyph(c: Color) -> Seq<char> {
    match c {
        Color::Black => "◼️"@,
        Color::White => "◻️"@,
    }
}

/// The glyph of a piece; an empty square shows a blank.
pub open spec fn piece_glyph(p: Piece) -> Seq<char> {
    match p {
        Piece::Empty => " "@,
        Piece::WhitePawn => "♙"@,
        Piece::WhiteKing => "♔"@,
        Piece::WhiteQueen => "♕"@,
        Piece::WhiteRook => "♖"@,
        Piece::WhiteBishop => "♗"@,
        Piece::WhiteKnight => "♘"@,
        Piece::BlackPawn => "♟"@,
        Piece::BlackKing => "♚"@,
        Piece::BlackQueen => "♛"@,
        Piece::BlackRook => "♜"@,
        Piece::BlackBishop => "♝"@,
        Piece::BlackKnight => "♞"@,
    }
}

/// The rank number printed before grid row `row`: 8 for row 0 down to 1.
pub open spec fn rank_label(row: int) -> Seq<char> {
    if row == 0 {
        "8"@
    } else if row == 1 {
        "7"@
    } else if row == 2 {
        "6"@
    } else if row == 3 {
        "5"@
    } else if row == 4 {
        "4"@
    } else if row == 5 {
        "3"@
    } else if row == 6 {
        "2"@
    } else {
        "1"@
    }
}

/// The first `n` squares of a rank, each as shade glyph, piece glyph, space.
pub open spec fn squares_text(rank: Seq<Square>, n: int) -> Seq<char>
    decreases n,
{
    if n <= 0 {
        Seq::empty()
    } else {
        squares_text(rank, n - 1) + shade_glyph(rank[n - 1].color) + piece_glyph(rank[n - 1].piece) + " "@
    }
}

/// The line drawn for grid row `row`.
pub open spec fn row_text(grid: Seq<Seq<Square>>, row: int) -> Seq<char> {
    "┃"@ + rank_label(row) + " "@ + squares_text(grid[row], 8) + "┃\n"@
}

/// The lines drawn for the first `n` grid rows.
pub open spec fn rows_text(grid: Seq<Seq<Square>>, n: int) -> Seq<char>
    decreases n,
{
    if n <= 0 {
        Seq::empty()
    } else {
        rows_text(grid, n - 1) + row_text(grid, n - 1)
    }
}

/// The box top, title and file letters above the ranks.
pub open spec fn header() -> Seq<char> {
    "┏━━━━━━━━━━━━━━━━━━━━━━━━━━┓\n"@ + "┃         CLI Chess        ┃\n"@
        + "┣━━━━━━━━━━━━━━━━━━━━━━━━━━┫\n"@ + "┃   a  b  c  d  e  f  g  h ┃\n"@
}

/// Whose turn a counter value stands for: White when it is odd.
pub open spec fn player_label(turn: int) -> Seq<char> {
    if turn % 2 == 0 {
        "Black"@
    } else {
        "White"@
    }
}

/// The whole frame: header, the eight ranks from 8 down to 1, the box
/// bottom, and a prompt naming the side to play.
pub open spec fn frame(grid: Seq<Seq<Square>>, turn: int) -> Seq<char> {
    header() + rows_text(grid, 8) + "┗━━━━━━━━━━━━━━━━━━━━━━━━━━┛\n"@ + player_label(turn) + " to play: "@
}

fn shade_str(c: Color) -> (r: &'static str)
    ensures
        r@ == shade_glyph(c),
{
    match c {
        Color::Black => "◼️",
        Color::White => "◻️",
    }
}

fn piece_str(p: Piece) -> (r: &'static str)
    ensures
        r@ == piece_glyph(p),
{
    match p {
        Piece::Empty => " ",
        Piece::WhitePawn => "♙",
        Piece::WhiteKing => "♔",
        Piece::WhiteQueen => "♕",
        Piece::WhiteRook => "♖",
        Piece::WhiteBishop => "♗",
        Piece::WhiteKnight => "♘",
        Piece::BlackPawn => "♟",
        Piece::BlackKing => "♚",
        Piece::BlackQueen => "♛",
        Piece::BlackRook => "♜",
        Piece::BlackBishop => "♝",
        Piece::BlackKnight => "♞",
    }
}

fn rank_str(row: usize) -> (r: &'static str)
    ensures
        r@ == rank_label(row as int),
{
    if row == 0 {
        "8"
    } else if row == 1 {
        "7"
    } else if row == 2 {
        "6"
    } else if row == 3 {
        "5"
    } else if row == 4 {
        "4"
    } else if row == 5 {
        "3"
    } else if row == 6 {
        "2"
    } else {
        "1"
    }
}

impl Board {
    /// The board drawn as a framed block of text, ending with the prompt
    /// "White to play: " when the counter is odd and "Black to play: " when
    /// it is even.
    pub fn render(&self) -> (r: String)
        ensures
            r@ == frame(self.grid(), self.turn_count()),
    {
        let mut out = String::from_str("┏━━━━━━━━━━━━━━━━━━━━━━━━━━┓\n");
        out.append("┃         CLI Chess        ┃\n");
        out.append("┣━━━━━━━━━━━━━━━━━━━━━━━━━━┫\n");
        out.append("┃   a  b  c  d  e  f  g  h ┃\n");
        let ghost grid = self.grid();
        let mut row: usize = 0;
        while row < 8
            invariant
                row <= 8,
                grid == self.grid(),
                out@ == header() + rows_text(grid, row as int),
            decreases 8 - row,
        {
            let ghost before = out@;
            out.append("┃");
            out.append(rank_str(row));
            out.append(" ");
            let ghost lead = out@;
            assert(lead == before + ("┃"@ + rank_label(row as int) + " "@));
            let mut col: usize = 0;
            while col < 8
                invariant
                    row < 8,
                    col <= 8,
                    grid == self.grid(),
                    out@ == lead + squares_text(grid[row as int], col as int),
                decreases 8 - col,
            {
                let sq = self.square(row, col);
                out.append(shade_str(sq.color));
                out.append(piece_str(sq.piece));
                out.append(" ");
                assert(out@ =~= lead + squares_text(grid[row as int], col + 1));
                col = col + 1;
            }
            out.append("┃\n");
            assert(out@ =~= header() + rows_text(grid, row + 1));
            row = row + 1;
        }
        out.append("┗━━━━━━━━━━━━━━━━━━━━━━━━━━┛\n");
        let player = if self.turn() % 2 == 0 {
            "Black"
        } else {
            "White"
        };
        out.append(player);
        out.append(" to play: ");
        out
    }
}

} // verus!
