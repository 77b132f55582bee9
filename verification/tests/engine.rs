use chess_engine::board::Chessboard;
use chess_engine::piece::{Color, Move, Piece, Position};

fn pos(notation: &str) -> Position {
    Position::from_notation(notation).unwrap()
}

fn mv(notation: &str) -> Move {
    Move::from_notation(notation).unwrap()
}

fn play(board: &mut Chessboard, moves: &[&str]) {
    for m in moves {
        let parsed = mv(m);
        assert!(board.make_move(&parsed).is_ok(), "move {} should be legal", m);
    }
}

#[test]
fn initial_position_layout() {
    let board = Chessboard::new();
    assert_eq!(board.get(pos("e1")), Some(Piece::King(Color::White)));
    assert_eq!(board.get(pos("d8")), Some(Piece::Queen(Color::Black)));
    assert_eq!(board.get(pos("a1")), Some(Piece::Rook(Color::White)));
    assert_eq!(board.get(pos("g8")), Some(Piece::Knight(Color::Black)));
    assert_eq!(board.get(pos("c8")), Some(Piece::Bishop(Color::Black)));
    assert_eq!(board.get(pos("e2")), Some(Piece::Pawn(Color::White)));
    assert_eq!(board.get(pos("e4")), None);
    assert_eq!(board.current_turn(), Color::White);
}

#[test]
fn pawn_has_two_opening_moves() {
    let board = Chessboard::new();
    let moves = board.get_legal_moves(pos("e2"));
    assert_eq!(moves.len(), 2);
    let targets: Vec<Position> = moves.iter().map(|m| m.to).collect();
    assert!(targets.contains(&pos("e3")));
    assert!(targets.contains(&pos("e4")));
}

#[test]
fn knight_opening_moves() {
    let board = Chessboard::new();
    let moves = board.get_legal_moves(pos("g1"));
    let targets: Vec<Position> = moves.iter().map(|m| m.to).collect();
    assert_eq!(moves.len(), 2);
    assert!(targets.contains(&pos("f3")));
    assert!(targets.contains(&pos("h3")));
}

#[test]
fn blocked_pieces_have_no_moves() {
    let board = Chessboard::new();
    assert!(board.get_legal_moves(pos("a1")).is_empty());
    assert!(board.get_legal_moves(pos("c1")).is_empty());
    assert!(board.get_legal_moves(pos("d1")).is_empty());
    assert!(board.get_legal_moves(pos("e1")).is_empty());
}

#[test]
fn empty_square_and_wrong_color_yield_no_moves() {
    let board = Chessboard::new();
    assert!(board.get_legal_moves(pos("e4")).is_empty());
    assert!(board.get_legal_moves(pos("e7")).is_empty());
}

#[test]
fn turn_alternates_after_each_move() {
    let mut board = Chessboard::new();
    assert_eq!(board.current_turn(), Color::White);
    play(&mut board, &["e2 e4"]);
    assert_eq!(board.current_turn(), Color::Black);
    play(&mut board, &["e7 e5"]);
    assert_eq!(board.current_turn(), Color::White);
    play(&mut board, &["g1 f3"]);
    assert_eq!(board.current_turn(), Color::Black);
}

#[test]
fn opening_moves_succeed_and_replay_fails() {
    let mut board = Chessboard::new();
    play(&mut board, &["e2 e4", "e7 e5", "f1 c4"]);
    // The source square no longer holds a White piece whose turn it is.
    let again = mv("e2 e4");
    assert!(board.make_move(&again).is_err());
}

#[test]
fn illegal_move_leaves_state_untouched() {
    let mut board = Chessboard::new();
    let before = board.to_fen();
    let bad = mv("e2 e5");
    let result = board.make_move(&bad);
    assert_eq!(result.unwrap_err(), "illegal move");
    assert_eq!(board.to_fen(), before);
    assert_eq!(board.current_turn(), Color::White);
}

#[test]
fn en_passant_capture_removes_the_passed_pawn() {
    let mut board = Chessboard::new();
    play(&mut board, &["e2 e4", "a7 a6", "e4 e5", "d7 d5"]);
    // White captures en passant: e5 takes d6, removing the pawn on d5.
    play(&mut board, &["e5 d6"]);
    assert_eq!(board.get(pos("d6")), Some(Piece::Pawn(Color::White)));
    assert_eq!(board.get(pos("d5")), None);
    assert_eq!(board.get(pos("e5")), None);
}

#[test]
fn en_passant_window_closes_after_one_ply() {
    let mut board = Chessboard::new();
    play(&mut board, &["e2 e4", "a7 a6", "e4 e5", "d7 d5", "b1 c3", "a6 a5"]);
    // The chance has passed: e5 x d6 is no longer available.
    assert!(board.make_move(&mv("e5 d6")).is_err());
}

#[test]
fn kingside_castling_relocates_rook_and_clears_rights() {
    let mut board = Chessboard::new();
    play(&mut board, &["e2 e4", "a7 a6", "f1 c4", "b7 b6", "g1 f3", "c7 c6"]);
    // e1 g1 castles: the rook jumps to f1 in the same move.
    play(&mut board, &["e1 g1"]);
    assert_eq!(board.get(pos("g1")), Some(Piece::King(Color::White)));
    assert_eq!(board.get(pos("f1")), Some(Piece::Rook(Color::White)));
    assert_eq!(board.get(pos("h1")), None);
    assert_eq!(board.get(pos("e1")), None);
    // The right is gone for all subsequent queries: White can never
    // castle again, as the position text shows.
    let fen = board.to_fen();
    assert!(fen.contains(" b kq "), "fen was {}", fen);
}

#[test]
fn rook_move_clears_only_its_side_right() {
    let mut board = Chessboard::new();
    play(&mut board, &["h2 h4", "a7 a6", "h1 h3", "b7 b6"]);
    let fen = board.to_fen();
    assert!(fen.contains(" Qkq "), "fen was {}", fen);
}

#[test]
fn promotion_places_the_chosen_piece() {
    let mut board = Chessboard::new();
    play(
        &mut board,
        &["a2 a4", "b7 b5", "a4 b5", "a7 a6", "b5 a6", "g8 f6", "a6 a7", "e7 e6"],
    );
    let promote = Move {
        from: pos("a7"),
        to: pos("b8"),
        promotion: Some(Piece::Queen(Color::White)),
    };
    assert!(board.make_move(&promote).is_ok());
    assert_eq!(board.get(pos("b8")), Some(Piece::Queen(Color::White)));
}

#[test]
fn fools_mate_is_checkmate() {
    let mut board = Chessboard::new();
    play(&mut board, &["f2 f3", "e7 e5", "g2 g4"]);
    assert!(!board.is_checkmate());
    assert!(!board.is_stalemate());
    play(&mut board, &["d8 h4"]);
    assert!(board.is_in_check(Color::White));
    assert!(board.is_checkmate());
    assert!(!board.is_stalemate());
    // No legal move remains anywhere, so no random fallback exists.
    assert!(board.get_random_legal_move().is_none());
}

#[test]
fn quickest_stalemate_is_stalemate_not_checkmate() {
    let mut board = Chessboard::new();
    play(
        &mut board,
        &[
            "e2 e3", "a7 a5", "d1 h5", "a8 a6", "h5 a5", "h7 h5", "a5 c7", "a6 h6", "h2 h4",
            "f7 f6", "c7 d7", "e8 f7", "d7 b7", "d8 d3", "b7 b8", "d3 h7", "b8 c8", "f7 g6",
            "c8 e6",
        ],
    );
    assert!(!board.is_in_check(Color::Black));
    assert!(board.is_stalemate());
    assert!(!board.is_checkmate());
    assert!(board.get_random_legal_move().is_none());
}

#[test]
fn random_legal_move_is_always_playable() {
    for _ in 0..20 {
        let mut board = Chessboard::new();
        let chosen = board.get_random_legal_move().expect("the opening has moves");
        assert!(board.make_move(&chosen).is_ok());
    }
}

#[test]
fn legal_king_moves_never_leave_king_attacked() {
    let script = ["e2 e4", "e7 e5", "g1 f3", "d7 d6", "f1 c4", "c8 g4"];
    let mut board = Chessboard::new();
    play(&mut board, &script);
    let king_moves = board.get_legal_moves(pos("e1"));
    assert!(!king_moves.is_empty());
    for m in &king_moves {
        let mut copy = Chessboard::new();
        play(&mut copy, &script);
        assert!(copy.make_move(m).is_ok());
        assert!(!copy.is_in_check(Color::White));
    }
}

#[test]
fn check_must_be_answered() {
    let mut board = Chessboard::new();
    play(&mut board, &["e2 e4", "f7 f6", "d2 d4", "g7 g5", "d1 h5"]);
    assert!(board.is_in_check(Color::Black));
    assert!(board.make_move(&mv("a7 a6")).is_err());
    assert!(board.is_checkmate());
}

#[test]
fn attack_detector_sees_pawns_knights_and_sliders() {
    let mut board = Chessboard::new();
    play(&mut board, &["e2 e4"]);
    // The advanced pawn attacks both diagonal squares ahead of it.
    assert!(board.is_square_attacked(pos("d5"), Color::White));
    assert!(board.is_square_attacked(pos("f5"), Color::White));
    assert!(!board.is_square_attacked(pos("e5"), Color::White));
    // The queen now slides along the opened diagonal up to h5.
    assert!(board.is_square_attacked(pos("h5"), Color::White));
    // Knights attack over other pieces, from their starting squares.
    assert!(board.is_square_attacked(pos("c3"), Color::White));
    assert!(board.is_square_attacked(pos("f6"), Color::Black));
}

#[test]
fn queenside_castling_relocates_rook_and_clears_rights() {
    let mut board = Chessboard::new();
    play(
        &mut board,
        &["d2 d4", "a7 a6", "c1 e3", "b7 b6", "d1 d2", "c7 c6", "b1 a3", "d7 d6"],
    );
    play(&mut board, &["e1 c1"]);
    assert_eq!(board.get(pos("c1")), Some(Piece::King(Color::White)));
    assert_eq!(board.get(pos("d1")), Some(Piece::Rook(Color::White)));
    assert_eq!(board.get(pos("a1")), None);
    assert_eq!(board.get(pos("e1")), None);
    let fen = board.to_fen();
    assert!(fen.contains(" b kq "), "fen was {}", fen);
}

#[test]
fn blocked_pawn_cannot_push_or_jump() {
    let mut board = Chessboard::new();
    play(&mut board, &["g1 f3", "a7 a6"]);
    // The knight on f3 blocks the f-pawn completely.
    assert!(board.get_legal_moves(pos("f2")).is_empty());
}

#[test]
fn promotion_offers_exactly_four_choices() {
    let mut board = Chessboard::new();
    play(
        &mut board,
        &["a2 a4", "b7 b5", "a4 b5", "a7 a6", "b5 a6", "g8 f6", "a6 a7", "e7 e6"],
    );
    // The pawn on a7 is blocked ahead by the rook on a8; its only moves
    // capture on b8, one per promotion piece.
    let moves = board.get_legal_moves(pos("a7"));
    assert_eq!(moves.len(), 4);
    let mut kinds: Vec<Piece> = Vec::new();
    for m in &moves {
        assert_eq!(m.to, pos("b8"));
        kinds.push(m.promotion.unwrap());
    }
    assert!(kinds.contains(&Piece::Queen(Color::White)));
    assert!(kinds.contains(&Piece::Rook(Color::White)));
    assert!(kinds.contains(&Piece::Bishop(Color::White)));
    assert!(kinds.contains(&Piece::Knight(Color::White)));
}

#[test]
fn piece_accessors() {
    let p = Piece::Knight(Color::Black);
    assert_eq!(p.color(), Color::Black);
    assert_eq!(p.name(), "knight");
    assert_eq!(Piece::Pawn(Color::White).color(), Color::White);
    assert_eq!(Piece::Queen(Color::White).name(), "queen");
    assert_eq!(Color::White.opposite(), Color::Black);
    assert_eq!(Color::Black.opposite(), Color::White);
}
