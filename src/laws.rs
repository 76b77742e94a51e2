use vstd::prelude::*;

use crate::board::{dest_half, moved, source_half};
use crate::coord::{lemma_square_in_range, square_of};
use crate::piece::{Piece, Square};
use crate::render::{frame, header, piece_glyph, player_label, row_text, rows_text, shade_glyph, squares_text};

verus! {

/// An 8×8 grid.
pub open spec fn full_grid(grid: Seq<Seq<Square>>) -> bool {
    &&& grid.len() == 8
    &&& forall|row: int| 0 <= row < 8 ==> #[trigger] grid[row].len() == 8
}

/// A move whose destination is its source leaves every square as it was:
/// the piece is lifted and put straight back.
pub proof fn lemma_move_onto_itself(grid: Seq<Seq<Square>>, token: Seq<char>)
    requires
        full_grid(grid),
        source_half(token) == dest_half(token),
    ensures
        moved(grid, token) == grid,
{
    lemma_square_in_range(source_half(token));
    if let Some((row, col)) = square_of(source_half(token)) {
        assert(moved(grid, token) =~~= grid);
    }
}

/// A move whose halves name no squares of the board leaves every square as
/// it was.
pub proof fn lemma_off_board_move(grid: Seq<Seq<Square>>, token: Seq<char>)
    requires
        square_of(source_half(token)) is None,
        square_of(dest_half(token)) is None,
    ensures
        moved(grid, token) == grid,
{
}

/// Moving from an empty square to a square of the board empties the
/// destination, whatever stood there, and leaves the source empty.
pub proof fn lemma_empty_source_clears_destination(grid: Seq<Seq<Square>>, token: Seq<char>)
    requires
        full_grid(grid),
        square_of(source_half(token)) matches Some((row, col)) && grid[row][col].piece == Piece::Empty,
        square_of(dest_half(token)) is Some,
    ensures
        ({
            let (r, c) = square_of(dest_half(token)).unwrap();
            moved(grid, token)[r][c].piece == Piece::Empty
        }),
        ({
            let (r, c) = square_of(source_half(token)).unwrap();
            moved(grid, token)[r][c].piece == Piece::Empty
        }),
{
    lemma_square_in_range(source_half(token));
    lemma_square_in_range(dest_half(token));
}

/// The prompt names White while the counter is odd and Black while it is
/// even, so each applied move hands the prompt to the other side.
pub proof fn lemma_prompt_alternates(turn: int)
    ensures
        turn % 2 == 1 ==> player_label(turn) == "White"@ && player_label(turn + 1) == "Black"@,
        turn % 2 == 0 ==> player_label(turn) == "Black"@ && player_label(turn + 1) == "White"@,
{
}

/// `c` occurs nowhere in `s`.
pub open spec fn lacks(s: Seq<char>, c: char) -> bool {
    forall|i: int| 0 <= i < s.len() ==> s[i] != c
}

/// `t` occurs as a contiguous piece of `s`.
pub open spec fn occurs_in(t: Seq<char>, s: Seq<char>) -> bool {
    exists|i: int| 0 <= i && i + t.len() <= s.len() && #[trigger] s.subrange(i, i + t.len()) == t
}

proof fn lemma_lacks_concat(a: Seq<char>, b: Seq<char>, c: char)
    requires
        lacks(a, c),
        lacks(b, c),
    ensures
        lacks(a + b, c),
{
    assert forall|i: int| 0 <= i < (a + b).len() implies (a + b)[i] != c by {
        if i >= a.len() {
            assert((a + b)[i] == b[i - a.len()]);
        }
    }
}

proof fn lemma_squares_lack(rank: Seq<Square>, n: int, c: char)
    requires
        c == 'B' || c == 'W',
    ensures
        lacks(squares_text(rank, n), c),
    decreases n,
{
    if n > 0 {
        lemma_squares_lack(rank, n - 1, c);
        reveal_strlit("◼️");
        reveal_strlit("◻️");
        reveal_strlit(" ");
        reveal_strlit("♙");
        reveal_strlit("♔");
        reveal_strlit("♕");
        reveal_strlit("♖");
        reveal_strlit("♗");
        reveal_strlit("♘");
        reveal_strlit("♟");
        reveal_strlit("♚");
        reveal_strlit("♛");
        reveal_strlit("♜");
        reveal_strlit("♝");
        reveal_strlit("♞");
        let sq = rank[n - 1];
        assert(lacks(shade_glyph(sq.color), c));
        assert(lacks(piece_glyph(sq.piece), c));
        lemma_lacks_concat(squares_text(rank, n - 1), shade_glyph(sq.color), c);
        lemma_lacks_concat(squares_text(rank, n - 1) + shade_glyph(sq.color), piece_glyph(sq.piece), c);
        lemma_lacks_concat(squares_text(rank, n - 1) + shade_glyph(sq.color) + piece_glyph(sq.piece), " "@, c);
    }
}

proof fn lemma_rows_lack(grid: Seq<Seq<Square>>, n: int, c: char)
    requires
        c == 'B' || c == 'W',
    ensures
        lacks(rows_text(grid, n), c),
    decreases n,
{
    if n > 0 {
        lemma_rows_lack(grid, n - 1, c);
        lemma_squares_lack(grid[n - 1], 8, c);
        reveal_strlit("┃");
        reveal_strlit(" ");
        reveal_strlit("┃\n");
        reveal_strlit("8");
        reveal_strlit("7");
        reveal_strlit("6");
        reveal_strlit("5");
        reveal_strlit("4");
        reveal_strlit("3");
        reveal_strlit("2");
        reveal_strlit("1");
        let label = crate::render::rank_label(n - 1);
        assert(lacks(label, c));
        lemma_lacks_concat("┃"@, label, c);
        lemma_lacks_concat("┃"@ + label, " "@, c);
        lemma_lacks_concat("┃"@ + label + " "@, squares_text(grid[n - 1], 8), c);
        lemma_lacks_concat("┃"@ + label + " "@ + squares_text(grid[n - 1], 8), "┃\n"@, c);
        lemma_lacks_concat(rows_text(grid, n - 1), row_text(grid, n - 1), c);
    }
}

proof fn lemma_frame_lacks(grid: Seq<Seq<Square>>, turn: int, c: char)
    requires
        c == 'B' || c == 'W',
        lacks(player_label(turn), c),
    ensures
        lacks(frame(grid, turn), c),
{
    reveal_strlit("┏━━━━━━━━━━━━━━━━━━━━━━━━━━┓\n");
    reveal_strlit("┃         CLI Chess        ┃\n");
    reveal_strlit("┣━━━━━━━━━━━━━━━━━━━━━━━━━━┫\n");
    reveal_strlit("┃   a  b  c  d  e  f  g  h ┃\n");
    reveal_strlit("┗━━━━━━━━━━━━━━━━━━━━━━━━━━┛\n");
    reveal_strlit(" to play: ");
    let top = "┏━━━━━━━━━━━━━━━━━━━━━━━━━━┓\n"@;
    let title = "┃         CLI Chess        ┃\n"@;
    let mid = "┣━━━━━━━━━━━━━━━━━━━━━━━━━━┫\n"@;
    let files = "┃   a  b  c  d  e  f  g  h ┃\n"@;
    let bottom = "┗━━━━━━━━━━━━━━━━━━━━━━━━━━┛\n"@;
    assert(lacks(top, c) && lacks(title, c) && lacks(mid, c) && lacks(files, c));
    assert(lacks(bottom, c) && lacks(" to play: "@, c));
    lemma_lacks_concat(top, title, c);
    lemma_lacks_concat(top + title, mid, c);
    lemma_lacks_concat(top + title + mid, files, c);
    lemma_rows_lack(grid, 8, c);
    lemma_lacks_concat(header(), rows_text(grid, 8), c);
    lemma_lacks_concat(header() + rows_text(grid, 8), bottom, c);
    lemma_lacks_concat(header() + rows_text(grid, 8) + bottom, player_label(turn), c);
    lemma_lacks_concat(header() + rows_text(grid, 8) + bottom + player_label(turn), " to play: "@, c);
}

proof fn lemma_absent_initial(t: Seq<char>, s: Seq<char>)
    requires
        t.len() > 0,
        lacks(s, t[0]),
    ensures
        !occurs_in(t, s),
{
    assert forall|i: int| 0 <= i && i + t.len() <= s.len() implies #[trigger] s.subrange(i, i + t.len()) != t by {
        assert(s.subrange(i, i + t.len())[0] == s[i]);
    }
}

/// The frame names exactly one side to play: with an odd counter it ends with
/// "White to play: " and "Black to play" occurs nowhere in it; with an even
/// counter it ends with "Black to play: " and "White to play" occurs nowhere.
pub proof fn lemma_frame_names_one_side(grid: Seq<Seq<Square>>, turn: int)
    ensures
        ({
            let f = frame(grid, turn);
            turn % 2 != 0 ==> f.subrange(f.len() - 15, f.len() as int) == "White to play: "@
                && !occurs_in("Black to play"@, f)
        }),
        ({
            let f = frame(grid, turn);
            turn % 2 == 0 ==> f.subrange(f.len() - 15, f.len() as int) == "Black to play: "@
                && !occurs_in("White to play"@, f)
        }),
{
    reveal_strlit("White");
    reveal_strlit("Black");
    reveal_strlit(" to play: ");
    reveal_strlit("White to play: ");
    reveal_strlit("Black to play: ");
    reveal_strlit("White to play");
    reveal_strlit("Black to play");
    let f = frame(grid, turn);
    let body = header() + rows_text(grid, 8) + "┗━━━━━━━━━━━━━━━━━━━━━━━━━━┛\n"@;
    assert(f == body + player_label(turn) + " to play: "@);
    if turn % 2 != 0 {
        assert(f.subrange(f.len() - 15, f.len() as int) =~= "White to play: "@);
        assert(lacks(player_label(turn), 'B'));
        lemma_frame_lacks(grid, turn, 'B');
        lemma_absent_initial("Black to play"@, f);
    } else {
        assert(f.subrange(f.len() - 15, f.len() as int) =~= "Black to play: "@);
        assert(lacks(player_label(turn), 'W'));
        lemma_frame_lacks(grid, turn, 'W');
        lemma_absent_initial("White to play"@, f);
    }
}

} // verus!
