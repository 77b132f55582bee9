use chess_engine::board::Chessboard;
use chess_engine::piece::{Color, Move, Piece, Position};

#[test]
fn initial_position_text_is_the_standard_one() {
    let board = Chessboard::new();
    assert_eq!(
        board.to_fen(),
        "rnbqkbnr/pppppppp/8/8/8/8/PPPPPPPP/RNBQKBNR w KQkq - 0 1"
    );
}

#[test]
fn position_text_after_one_advance_shows_the_en_passant_target() {
    let mut board = Chessboard::new();
    board.make_move(&Move::from_notation("e2 e4").unwrap()).unwrap();
    assert_eq!(
        board.to_fen(),
        "rnbqkbnr/pppppppp/8/8/4P3/8/PPPP1PPP/RNBQKBNR b KQkq e3 0 1"
    );
    board.make_move(&Move::from_notation("g8 f6").unwrap()).unwrap();
    // A knight move closes the window: the target field reads '-'.
    assert_eq!(
        board.to_fen(),
        "rnbqkb1r/pppppppp/5n2/8/4P3/8/PPPP1PPP/RNBQKBNR w KQkq - 0 1"
    );
}

#[test]
fn position_new_accepts_only_board_coordinates() {
    assert_eq!(Position::new(0, 0), Some(Position { row: 0, col: 0 }));
    assert_eq!(Position::new(7, 7), Some(Position { row: 7, col: 7 }));
    assert_eq!(Position::new(8, 0), None);
    assert_eq!(Position::new(0, 8), None);
    assert_eq!(Position::new(12, 3), None);
}

#[test]
fn position_notation_round_trips() {
    let a1 = Position::from_notation("a1").unwrap();
    assert_eq!(a1, Position { row: 7, col: 0 });
    assert_eq!(a1.to_notation(), "a1");
    let h8 = Position::from_notation("h8").unwrap();
    assert_eq!(h8, Position { row: 0, col: 7 });
    assert_eq!(h8.to_notation(), "h8");
    let e4 = Position::from_notation("e4").unwrap();
    assert_eq!(e4, Position { row: 4, col: 4 });
    assert_eq!(e4.to_notation(), "e4");
}

#[test]
fn malformed_position_text_is_rejected() {
    assert_eq!(Position::from_notation(""), None);
    assert_eq!(Position::from_notation("e"), None);
    assert_eq!(Position::from_notation("e44"), None);
    assert_eq!(Position::from_notation("i4"), None);
    assert_eq!(Position::from_notation("a9"), None);
    assert_eq!(Position::from_notation("4e"), None);
}

#[test]
fn move_notation_parses_space_joined_squares() {
    let m = Move::from_notation("e2 e4").unwrap();
    assert_eq!(m.from, Position { row: 6, col: 4 });
    assert_eq!(m.to, Position { row: 4, col: 4 });
    assert!(m.promotion.is_none());
    assert_eq!(m.to_notation(), "e2 e4");
}

#[test]
fn move_notation_parses_concatenated_squares() {
    let m = Move::from_notation("e2e4").unwrap();
    assert_eq!(m.from, Position { row: 6, col: 4 });
    assert_eq!(m.to, Position { row: 4, col: 4 });
}

#[test]
fn move_notation_tolerates_extra_whitespace_and_trailing_text() {
    let m = Move::from_notation("  g8   f6   anything").unwrap();
    assert_eq!(m.from, Position { row: 0, col: 6 });
    assert_eq!(m.to, Position { row: 2, col: 5 });
}

#[test]
fn malformed_move_text_is_rejected() {
    assert!(Move::from_notation("").is_none());
    assert!(Move::from_notation("e2").is_none());
    assert!(Move::from_notation("e2 z9").is_none());
    assert!(Move::from_notation("e2e4e6").is_none());
    assert!(Move::from_notation("hello").is_none());
}

#[test]
fn move_log_records_promotions() {
    let mut board = Chessboard::new();
    for text in [
        "a2 a4", "b7 b5", "a4 b5", "a7 a6", "b5 a6", "g8 f6", "a6 a7", "e7 e6",
    ] {
        board.make_move(&Move::from_notation(text).unwrap()).unwrap();
    }
    let promote = Move {
        from: Position::from_notation("a7").unwrap(),
        to: Position::from_notation("b8").unwrap(),
        promotion: Some(Piece::Rook(Color::White)),
    };
    board.make_move(&promote).unwrap();
    assert_eq!(board.get(promote.to), Some(Piece::Rook(Color::White)));
    let last = board.move_history.last().unwrap();
    assert_eq!(last, "a7 b8R");
    assert_eq!(board.move_history[0], "a2 a4");
}
