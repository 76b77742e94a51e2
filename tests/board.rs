use chess::board::{Board, INVALID_MOVE};
use chess::piece::{Color, Piece};

const BACK_WHITE: [Piece; 8] = [
    Piece::WhiteRook,
    Piece::WhiteKnight,
    Piece::WhiteBishop,
    Piece::WhiteQueen,
    Piece::WhiteKing,
    Piece::WhiteBishop,
    Piece::WhiteKnight,
    Piece::WhiteRook,
];

const BACK_BLACK: [Piece; 8] = [
    Piece::BlackRook,
    Piece::BlackKnight,
    Piece::BlackBishop,
    Piece::BlackQueen,
    Piece::BlackKing,
    Piece::BlackBishop,
    Piece::BlackKnight,
    Piece::BlackRook,
];

fn label(file: usize, rank: usize) -> String {
    let f = (b'a' + file as u8) as char;
    let r = (b'0' + rank as u8) as char;
    format!("{}{}", f, r)
}

fn pieces(b: &Board) -> Vec<Option<Piece>> {
    let mut all = Vec::new();
    for rank in 1..=8 {
        for file in 0..8 {
            all.push(b.piece_at(&label(file, rank)));
        }
    }
    all
}

#[test]
fn new_board_has_starting_position() {
    let b = Board::new();
    for file in 0..8 {
        assert_eq!(b.piece_at(&label(file, 1)), Some(BACK_WHITE[file]));
        assert_eq!(b.piece_at(&label(file, 2)), Some(Piece::WhitePawn));
        for rank in 3..=6 {
            assert_eq!(b.piece_at(&label(file, rank)), Some(Piece::Empty));
        }
        assert_eq!(b.piece_at(&label(file, 7)), Some(Piece::BlackPawn));
        assert_eq!(b.piece_at(&label(file, 8)), Some(BACK_BLACK[file]));
    }
    assert_eq!(b.piece_at("a1"), Some(Piece::WhiteRook));
    assert_eq!(b.piece_at("e1"), Some(Piece::WhiteKing));
    assert_eq!(b.piece_at("d8"), Some(Piece::BlackQueen));
    assert_eq!(b.piece_at("e8"), Some(Piece::BlackKing));
    assert_eq!(b.turn(), 1);
}

#[test]
fn new_board_shades_alternate() {
    let b = Board::new();
    assert_eq!(b.square(0, 0).color, Color::White);
    assert_eq!(b.square(0, 1).color, Color::Black);
    assert_eq!(b.square(7, 0).color, Color::Black);
    assert_eq!(b.square(7, 7).color, Color::White);
    for row in 0..8 {
        for col in 0..8 {
            let expected = if (row + col) % 2 == 0 { Color::White } else { Color::Black };
            assert_eq!(b.square(row, col).color, expected);
        }
    }
}

#[test]
fn piece_at_reads_labels() {
    let b = Board::new();
    assert_eq!(b.piece_at("E2"), Some(Piece::WhitePawn));
    assert_eq!(b.piece_at("h8"), Some(Piece::BlackRook));
    assert_eq!(b.piece_at("i1"), None);
    assert_eq!(b.piece_at("a9"), None);
    assert_eq!(b.piece_at("a0"), None);
    assert_eq!(b.piece_at("e22"), None);
    assert_eq!(b.piece_at(""), None);
}

#[test]
fn malformed_tokens_are_refused() {
    for token in ["e2e44", "xy", "", "e2e", "22e4", "e2-4", " e2e4", "e2e4\n", "ee22", "e2e4 "] {
        let mut b = Board::new();
        let before = pieces(&b);
        assert_eq!(b.mv(token.to_string()), Err(INVALID_MOVE));
        assert_eq!(b.mv(token.to_string()), Err("invalid move"));
        assert_eq!(pieces(&b), before);
        assert_eq!(b.turn(), 1);
    }
}

#[test]
fn e2e4_moves_the_pawn() {
    let mut b = Board::new();
    assert_eq!(b.mv("e2e4".to_string()), Ok(()));
    assert_eq!(b.piece_at("e2"), Some(Piece::Empty));
    assert_eq!(b.piece_at("e4"), Some(Piece::WhitePawn));
    assert_eq!(b.turn(), 2);
}

#[test]
fn e2e4_twice_clears_the_destination() {
    let mut b = Board::new();
    assert_eq!(b.mv("e2e4".to_string()), Ok(()));
    assert_eq!(b.mv("e2e4".to_string()), Ok(()));
    assert_eq!(b.piece_at("e2"), Some(Piece::Empty));
    assert_eq!(b.piece_at("e4"), Some(Piece::Empty));
    assert_eq!(b.turn(), 3);
}

#[test]
fn move_onto_itself_keeps_the_board() {
    let mut b = Board::new();
    let before = pieces(&b);
    assert_eq!(b.mv("a1a1".to_string()), Ok(()));
    assert_eq!(pieces(&b), before);
    assert_eq!(b.piece_at("a1"), Some(Piece::WhiteRook));
    assert_eq!(b.turn(), 2);
    assert_eq!(b.mv("A1a1".to_string()), Ok(()));
    assert_eq!(pieces(&b), before);
    assert_eq!(b.turn(), 3);
}

#[test]
fn off_board_move_only_advances_the_counter() {
    let mut b = Board::new();
    let before = pieces(&b);
    assert_eq!(b.mv("z9z9".to_string()), Ok(()));
    assert_eq!(pieces(&b), before);
    assert_eq!(b.turn(), 2);
}

#[test]
fn off_board_destination_discards_the_piece() {
    let mut b = Board::new();
    assert_eq!(b.mv("d1z9".to_string()), Ok(()));
    assert_eq!(b.piece_at("d1"), Some(Piece::Empty));
    assert_eq!(b.turn(), 2);
}

#[test]
fn off_board_source_empties_the_destination() {
    let mut b = Board::new();
    assert_eq!(b.mv("z9e8".to_string()), Ok(()));
    assert_eq!(b.piece_at("e8"), Some(Piece::Empty));
    assert_eq!(b.turn(), 2);
}

#[test]
fn capture_overwrites_the_destination() {
    let mut b = Board::new();
    assert_eq!(b.mv("D1E8".to_string()), Ok(()));
    assert_eq!(b.piece_at("d1"), Some(Piece::Empty));
    assert_eq!(b.piece_at("e8"), Some(Piece::WhiteQueen));
}

#[test]
fn checked_move_follows_the_given_verdict() {
    let mut b = Board::new();
    assert_eq!(b.mv_checked("e2e4", false), Err(INVALID_MOVE));
    assert_eq!(b.turn(), 1);
    assert_eq!(b.piece_at("e2"), Some(Piece::WhitePawn));
    assert_eq!(b.mv_checked("e7e5", true), Ok(()));
    assert_eq!(b.piece_at("e5"), Some(Piece::BlackPawn));
    assert_eq!(b.turn(), 2);
    assert_eq!(b.mv_checked("e5", true), Ok(()));
    assert_eq!(b.piece_at("e5"), Some(Piece::Empty));
    assert_eq!(b.turn(), 3);
}

#[test]
fn render_names_the_side_to_play() {
    let mut b = Board::new();
    assert!(b.render().ends_with("White to play: "));
    assert!(!b.render().contains("Black to play"));
    assert_eq!(b.mv("e2e4".to_string()), Ok(()));
    assert!(b.render().ends_with("Black to play: "));
    assert!(!b.render().contains("White to play"));
    assert_eq!(b.mv("e7e5".to_string()), Ok(()));
    assert!(b.render().ends_with("White to play: "));
    assert_eq!(b.mv("bad".to_string()), Err(INVALID_MOVE));
    assert!(b.render().ends_with("White to play: "));
}

#[test]
fn render_draws_the_starting_position() {
    let expected = String::new()
        + "┏━━━━━━━━━━━━━━━━━━━━━━━━━━┓\n"
        + "┃         CLI Chess        ┃\n"
        + "┣━━━━━━━━━━━━━━━━━━━━━━━━━━┫\n"
        + "┃   a  b  c  d  e  f  g  h ┃\n"
        + "┃8 ◻️♜ ◼️♞ ◻️♝ ◼️♛ ◻️♚ ◼️♝ ◻️♞ ◼️♜ ┃\n"
        + "┃7 ◼️♟ ◻️♟ ◼️♟ ◻️♟ ◼️♟ ◻️♟ ◼️♟ ◻️♟ ┃\n"
        + "┃6 ◻️  ◼️  ◻️  ◼️  ◻️  ◼️  ◻️  ◼️  ┃\n"
        + "┃5 ◼️  ◻️  ◼️  ◻️  ◼️  ◻️  ◼️  ◻️  ┃\n"
        + "┃4 ◻️  ◼️  ◻️  ◼️  ◻️  ◼️  ◻️  ◼️  ┃\n"
        + "┃3 ◼️  ◻️  ◼️  ◻️  ◼️  ◻️  ◼️  ◻️  ┃\n"
        + "┃2 ◻️♙ ◼️♙ ◻️♙ ◼️♙ ◻️♙ ◼️♙ ◻️♙ ◼️♙ ┃\n"
        + "┃1 ◼️♖ ◻️♘ ◼️♗ ◻️♕ ◼️♔ ◻️♗ ◼️♘ ◻️♖ ┃\n"
        + "┗━━━━━━━━━━━━━━━━━━━━━━━━━━┛\n"
        + "White to play: ";
    assert_eq!(Board::new().render(), expected);
}

#[test]
fn render_shows_a_moved_piece() {
    let mut b = Board::new();
    assert_eq!(b.mv("e2e4".to_string()), Ok(()));
    let text = b.render();
    assert!(text.contains("┃4 ◻️  ◼️  ◻️  ◼️  ◻️♙ ◼️  ◻️  ◼️  ┃\n"));
    assert!(text.contains("┃2 ◻️♙ ◼️♙ ◻️♙ ◼️♙ ◻️  ◼️♙ ◻️♙ ◼️♙ ┃\n"));
}
