use vstd::prelude::*;

use crate::coord::{locate, square_of};
use crate::pattern::{regex_finds, regex_is_match};
use crate::piece::{color_at, initial_piece, initial_square, start_square, Piece, Square};

verus! {

/// The shape every move token must have: a letter, a digit, a letter and a
/// digit, and nothing else.
pub const MOVE_FORMAT: &'static str = r"^[a-zA-Z]\d[a-zA-Z]\d$";

/// The error a malformed move token is reported with.
pub const INVALID_MOVE: &'static str = "invalid move";

/// Whether `token` has the shape of a move.
pub open spec fn is_move_token(token: Seq<char>) -> bool {
    regex_finds(MOVE_FORMAT@, token)
}

/// The first half of a move token: the source coordinate.
pub open spec fn source_half(token: Seq<char>) -> Seq<char> {
    token.subrange(0, if token.len() < 2 { token.len() as int } else { 2 })
}

/// The rest of a move token: the destination coordinate.
pub open spec fn dest_half(token: Seq<char>) -> Seq<char> {
    token.subrange(if token.len() < 2 { token.len() as int } else { 2 }, token.len() as int)
}

/// `grid` with the piece at `pos` replaced by `p`; the square keeps its shade.
pub open spec fn with_piece(grid: Seq<Seq<Square>>, pos: (int, int), p: Piece) -> Seq<Seq<Square>> {
    grid.update(pos.0, grid[pos.0].update(pos.1, Square { color: grid[pos.0][pos.1].color, piece: p }))
}

/// Lift whatever stands at `from` (nothing if there is no such square), empty
/// that square, then put what was lifted on `to`, if there is such a square.
pub open spec fn relocate(grid: Seq<Seq<Square>>, from: Option<(int, int)>, to: Option<(int, int)>) -> Seq<Seq<Square>> {
    let held = match from {
        Some(p) => grid[p.0][p.1].piece,
        None => Piece::Empty,
    };
    let lifted = match from {
        Some(p) => with_piece(grid, p, Piece::Empty),
        None => grid,
    };
    match to {
        Some(q) => with_piece(lifted, q, held),
        None => lifted,
    }
}

/// The grid after the move `token` is carried out on `grid`.
pub open spec fn moved(grid: Seq<Seq<Square>>, token: Seq<char>) -> Seq<Seq<Square>> {
    relocate(grid, square_of(source_half(token)), square_of(dest_half(token)))
}

/// Moving pieces leaves every square's shade and the grid's shape as they were.
pub proof fn lemma_moved_keeps_shades(grid: Seq<Seq<Square>>, token: Seq<char>)
    requires
        grid.len() == 8,
        forall|row: int| 0 <= row < 8 ==> #[trigger] grid[row].len() == 8,
    ensures
        moved(grid, token).len() == 8,
        forall|row: int| 0 <= row < 8 ==> #[trigger] moved(grid, token)[row].len() == 8,
        forall|row: int, col: int|
            0 <= row < 8 && 0 <= col < 8 ==> #[trigger] moved(grid, token)[row][col].color == grid[row][col].color,
{
    let from = square_of(source_half(token));
    let to = square_of(dest_half(token));
    let lifted = match from {
        Some(p) => with_piece(grid, p, Piece::Empty),
        None => grid,
    };
    assert(lifted.len() == 8);
    assert(forall|row: int| 0 <= row < 8 ==> #[trigger] lifted[row].len() == 8);
    assert(forall|row: int, col: int|
        0 <= row < 8 && 0 <= col < 8 ==> #[trigger] lifted[row][col].color == grid[row][col].color);
}

/// An 8×8 board, rank 8 first and file a first within a rank, with a turn
/// counter whose parity tells whose turn it is.
#[derive(Clone, Debug)]
pub struct Board {
    ranks: [[Square; 8]; 8],
    turn: u64,
}

impl Board {
    /// The squares, row by row: row 0 is rank 8, column 0 is file a.
    pub closed spec fn grid(&self) -> Seq<Seq<Square>> {
        Seq::new(8, |row: int| self.ranks[row]@)
    }

    /// The turn counter.
    pub closed spec fn turn_count(&self) -> int {
        self.turn as int
    }

    /// Every square has its fixed shade and the counter has started.
    pub open spec fn wf(&self) -> bool {
        &&& self.grid().len() == 8
        &&& forall|row: int| 0 <= row < 8 ==> #[trigger] self.grid()[row].len() == 8
        &&& forall|row: int, col: int|
            0 <= row < 8 && 0 <= col < 8 ==> #[trigger] self.grid()[row][col].color == color_at(row, col)
        &&& self.turn_count() >= 1
    }

    proof fn lemma_shape(&self)
        ensures
            self.grid().len() == 8,
            forall|row: int| 0 <= row < 8 ==> #[trigger] self.grid()[row].len() == 8,
    {
    }

    /// The board in the standard starting position, with the counter at 1.
    pub fn new() -> (b: Board)
        ensures
            b.wf(),
            b.turn_count() == 1,
            forall|row: int, col: int|
                0 <= row < 8 && 0 <= col < 8 ==> (#[trigger] b.grid()[row][col]).piece == initial_piece(row, col),
    {
        let mut ranks = [[initial_square(0, 0); 8]; 8];
        let mut row: usize = 0;
        while row < 8
            invariant
                row <= 8,
                forall|r: int, c: int| 0 <= r < row && 0 <= c < 8 ==> (#[trigger] ranks[r][c]) == start_square(r, c),
            decreases 8 - row,
        {
            let mut col: usize = 0;
            while col < 8
                invariant
                    row < 8,
                    col <= 8,
                    forall|r: int, c: int| 0 <= r < row && 0 <= c < 8 ==> (#[trigger] ranks[r][c]) == start_square(r, c),
                    forall|c: int| 0 <= c < col ==> (#[trigger] ranks[row as int][c]) == start_square(row as int, c),
                decreases 8 - col,
            {
                ranks[row][col] = initial_square(row, col);
                col = col + 1;
            }
            row = row + 1;
        }
        let b = Board { ranks, turn: 1 };
        proof { b.lemma_shape(); }
        b
    }

    /// Put `p` on the square at `row`, `col`, which keeps its shade.
    fn put(&mut self, row: usize, col: usize, p: Piece)
        requires
            row < 8,
            col < 8,
        ensures
            final(self).grid() == with_piece(old(self).grid(), (row as int, col as int), p),
            final(self).turn == old(self).turn,
    {
        let color = self.ranks[row][col].color;
        self.ranks[row][col] = Square { color, piece: p };
        assert(self.grid() =~~= with_piece(old(self).grid(), (row as int, col as int), p));
    }

    /// Carry out a move on the grid: the piece on `from` (nothing if `from`
    /// names no square) is lifted, `from` is emptied, and the lifted piece
    /// replaces whatever stands on `to`, if `to` names a square.
    fn relocate(&mut self, from: Option<(usize, usize)>, to: Option<(usize, usize)>)
        requires
            from matches Some((r, c)) ==> r < 8 && c < 8,
            to matches Some((r, c)) ==> r < 8 && c < 8,
        ensures
            final(self).grid() == relocate(
                old(self).grid(),
                match from { Some((r, c)) => Some((r as int, c as int)), None => None },
                match to { Some((r, c)) => Some((r as int, c as int)), None => None },
            ),
            final(self).turn == old(self).turn,
    {
        let mut held = Piece::Empty;
        if let Some((r, c)) = from {
            held = self.ranks[r][c].piece;
            self.put(r, c, Piece::Empty);
        }
        if let Some((r, c)) = to {
            self.put(r, c, held);
        }
    }

    /// Apply the move `mv`, given whether it has the shape of a move.
    ///
    /// A token of the wrong shape is refused and changes nothing. Otherwise
    /// its first two characters name the source and the rest the
    /// destination: whatever stands on the source (nothing, where the source
    /// names no square) is lifted off it and put on the destination (lost,
    /// where the destination names no square), and the counter goes up by one.
    pub fn mv_checked(&mut self, mv: &str, well_formed: bool) -> (r: Result<(), &'static str>)
        requires
            well_formed ==> old(self).turn_count() < u64::MAX,
        ensures
            r is Ok <==> well_formed,
            r matches Err(e) ==> e@ == INVALID_MOVE@ && *final(self) == *old(self),
            r is Ok ==> final(self).grid() == moved(old(self).grid(), mv@)
                && final(self).turn_count() == old(self).turn_count() + 1,
            old(self).wf() ==> final(self).wf(),
    {
        if !well_formed {
            return Err(INVALID_MOVE);
        }
        let n = mv.unicode_len();
        let from = if n >= 2 {
            locate(mv.get_char(0), mv.get_char(1))
        } else {
            None
        };
        let to = if n == 4 {
            locate(mv.get_char(2), mv.get_char(3))
        } else {
            None
        };
        proof {
            if n >= 2 {
                assert(source_half(mv@) =~= seq![mv@[0], mv@[1]]);
            }
            if n == 4 {
                assert(dest_half(mv@) =~= seq![mv@[2], mv@[3]]);
            }
        }
        self.relocate(from, to);
        self.turn = self.turn + 1;
        proof {
            if old(self).wf() {
                lemma_moved_keeps_shades(old(self).grid(), mv@);
            }
        }
        Ok(())
    }

    /// Apply the move `mv`: refused, changing nothing, unless it is a letter,
    /// a digit, a letter and a digit; otherwise carried out as
    /// [`Board::mv_checked`] describes.
    pub fn mv(&mut self, mv: String) -> (r: Result<(), &str>)
        requires
            old(self).turn_count() < u64::MAX,
        ensures
            r is Ok <==> is_move_token(mv@),
            r matches Err(e) ==> e@ == INVALID_MOVE@ && *final(self) == *old(self),
            r is Ok ==> final(self).grid() == moved(old(self).grid(), mv@)
                && final(self).turn_count() == old(self).turn_count() + 1,
            old(self).wf() ==> final(self).wf(),
    {
        let well_formed = match regex_is_match(MOVE_FORMAT, mv.as_str()) {
            Ok(found) => found,
            Err(_) => false,
        };
        self.mv_checked(mv.as_str(), well_formed)
    }

    /// The square at grid row `row` (0 is rank 8) and column `col` (0 is file a).
    pub fn square(&self, row: usize, col: usize) -> (r: Square)
        requires
            row < 8,
            col < 8,
        ensures
            r == self.grid()[row as int][col as int],
    {
        self.ranks[row][col]
    }

    /// The turn counter: 1 on a new board, one more after each applied move.
    pub fn turn(&self) -> (r: u64)
        ensures
            r == self.turn_count(),
    {
        self.turn
    }

    /// The piece on the square that `coord` names (file letter in either
    /// case, then rank digit), or `None` where it names no square.
    pub fn piece_at(&self, coord: &str) -> (r: Option<Piece>)
        ensures
            r == match square_of(coord@) {
                Some(p) => Some(self.grid()[p.0][p.1].piece),
                None => None,
            },
    {
        if coord.unicode_len() != 2 {
            return None;
        }
        proof {
            assert(coord@ =~= seq![coord@[0], coord@[1]]);
        }
        match locate(coord.get_char(0), coord.get_char(1)) {
            Some((row, col)) => Some(self.ranks[row][col].piece),
            None => None,
        }
    }
}

} // verus!
