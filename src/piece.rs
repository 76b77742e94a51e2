use vstd::prelude::*;

verus! {

/// The display shade of a square.
#[derive(Clone, Copy, Debug, PartialEq, Eq, Structural)]
pub enum Color {
    Black,
    White,
}

/// What stands on a square: nothing, or one of the twelve kind/side pairs.
#[derive(Clone, Copy, Debug, PartialEq, Eq, Structural)]
pub enum Piece {
    Empty,
    WhitePawn,
    WhiteKing,
    WhiteQueen,
    WhiteRook,
    WhiteBishop,
    WhiteKnight,
    BlackPawn,
    BlackKing,
    BlackQueen,
    BlackRook,
    BlackBishop,
    BlackKnight,
}

/// One board position: a fixed shade and the piece that currently sits there.
/// Its coordinate is given by where it stands in the grid.
#[derive(Clone, Copy, Debug, PartialEq, Eq, Structural)]
pub struct Square {
    pub color: Color,
    pub piece: Piece,
}

/// Shade of the square in grid row `row` (0 is rank 8) and column `col`
/// (0 is file a): a8 is light, and shades alternate along ranks and files.
pub open spec fn color_at(row: int, col: int) -> Color {
    if (row + col) % 2 == 0 {
        Color::White
    } else {
        Color::Black
    }
}

/// The standard starting position, by grid row (0 is rank 8) and column.
pub open spec fn initial_piece(row: int, col: int) -> Piece {
    if row == 0 {
        if col == 0 || col == 7 {
            Piece::BlackRook
        } else if col == 1 || col == 6 {
            Piece::BlackKnight
        } else if col == 2 || col == 5 {
            Piece::BlackBishop
        } else if col == 3 {
            Piece::BlackQueen
        } else {
            Piece::BlackKing
        }
    } else if row == 1 {
        Piece::BlackPawn
    } else if row == 6 {
        Piece::WhitePawn
    } else if row == 7 {
        if col == 0 || col == 7 {
            Piece::WhiteRook
        } else if col == 1 || col == 6 {
            Piece::WhiteKnight
        } else if col == 2 || col == 5 {
            Piece::WhiteBishop
        } else if col == 3 {
            Piece::WhiteQueen
        } else {
            Piece::WhiteKing
        }
    } else {
        Piece::Empty
    }
}

/// The square at `row`, `col` of a board in the starting position.
pub open spec fn start_square(row: int, col: int) -> Square {
    Square { color: color_at(row, col), piece: initial_piece(row, col) }
}

/// The starting square at `row`, `col`.
pub fn initial_square(row: usize, col: usize) -> (r: Square)
    requires
        row < 8,
        col < 8,
    ensures
        r == start_square(row as int, col as int),
{
    let color = if (row + col) % 2 == 0 {
        Color::White
    } else {
        Color::Black
    };
    let corner = col == 0 || col == 7;
    let piece = if row == 0 {
        if corner {
            Piece::BlackRook
        } else if col == 1 || col == 6 {
            Piece::BlackKnight
        } else if col == 2 || col == 5 {
            Piece::BlackBishop
        } else if col == 3 {
            Piece::BlackQueen
        } else {
            Piece::BlackKing
        }
    } else if row == 1 {
        Piece::BlackPawn
    } else if row == 6 {
        Piece::WhitePawn
    } else if row == 7 {
        if corner {
            Piece::WhiteRook
        } else if col == 1 || col == 6 {
            Piece::WhiteKnight
        } else if col == 2 || col == 5 {
            Piece::WhiteBishop
        } else if col == 3 {
            Piece::WhiteQueen
        } else {
            Piece::WhiteKing
        }
    } else {
        Piece::Empty
    };
    Square { color, piece }
}

} // verus!
