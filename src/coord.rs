use vstd::prelude::*;

verus! {

/// Grid column of a file letter: `a`–`h` (either case) give 0–7.
pub open spec fn file_col(f: char) -> Option<int> {
    if 'a' <= f && f <= 'h' {
        Some(f as int - 'a' as int)
    } else if 'A' <= f && f <= 'H' {
        Some(f as int - 'A' as int)
    } else {
        None
    }
}

/// Grid row of a rank digit: `8` is row 0 and `1` is row 7.
pub open spec fn rank_row(r: char) -> Option<int> {
    if '1' <= r && r <= '8' {
        Some('8' as int - r as int)
    } else {
        None
    }
}

/// The grid position (row, column) that a coordinate label names, if any.
/// A label is a file letter followed by a rank digit; the letter's case is
/// ignored.
pub open spec fn square_of(label: Seq<char>) -> Option<(int, int)> {
    if label.len() == 2 {
        match (rank_row(label[1]), file_col(label[0])) {
            (Some(row), Some(col)) => Some((row, col)),
            _ => None,
        }
    } else {
        None
    }
}

/// The position named by the file letter `f` and rank digit `r`.
pub fn locate(f: char, r: char) -> (res: Option<(usize, usize)>)
    ensures
        res is None <==> square_of(seq![f, r]) is None,
        res matches Some((row, col)) ==> square_of(seq![f, r]) == Some((row as int, col as int)),
{
    let ghost label = seq![f, r];
    assert(label[0] == f && label[1] == r);
    let col: usize = if 'a' <= f && f <= 'h' {
        (f as u32 - 'a' as u32) as usize
    } else if 'A' <= f && f <= 'H' {
        (f as u32 - 'A' as u32) as usize
    } else {
        return None;
    };
    if '1' <= r && r <= '8' {
        Some((('8' as u32 - r as u32) as usize, col))
    } else {
        None
    }
}

/// A label that names a square names one on the board.
pub proof fn lemma_square_in_range(label: Seq<char>)
    ensures
        square_of(label) matches Some((row, col)) ==> 0 <= row < 8 && 0 <= col < 8,
{
}

} // verus!
