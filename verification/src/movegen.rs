//! The move generator: per-piece pattern-legal candidates, and the legality
//! filter that discards any candidate leaving the mover's king attacked.

use vstd::prelude::*;
use crate::board::Chessboard;
use crate::model::{lemma_push_contains, on_board};
use crate::piece::{Color, Move, Piece, Position};
use crate::rules::{
    can_capture, can_move_to, castle_pattern, king_step_pattern, knight_pattern, legal,
    pattern_legal, pawn_pattern, pawn_promotion_ok, ray_reaches, simple_move,
};

verus! {

impl Chessboard {
    /// Whether a piece of `col` may land on `(r, c)`: empty or opposing.
    fn can_move_at(&self, r: usize, c: usize, col: Color) -> (res: bool)
        requires
            self@.wf(),
            r < 8,
            c < 8,
        ensures
            res == can_move_to(self@, r as int, c as int, col),
    {
        match self.at_rc(r, c) {
            Some(p) => p.color() != col,
            None => true,
        }
    }

    /// Whether a piece of `col` may capture on `(r, c)`.
    fn can_capture_at(&self, r: usize, c: usize, col: Color) -> (res: bool)
        requires
            self@.wf(),
            r < 8,
            c < 8,
        ensures
            res == can_capture(self@, r as int, c as int, col),
    {
        match self.at_rc(r, c) {
            Some(p) => p.color() != col,
            None => false,
        }
    }

    /// Appends the plain move from `from` to `(r, c)` when that square is on
    /// the board and not held by `col`'s own side; otherwise appends
    /// nothing.
    fn try_step(&self, from: Position, r: i32, c: i32, col: Color, moves: &mut Vec<Move>)
        requires
            self@.wf(),
            from.valid(),
            -16 <= r <= 16,
            -16 <= c <= 16,
        ensures
            forall|m: Move|
                #[trigger] final(moves)@.contains(m) <==> old(moves)@.contains(m) || (on_board(
                    r as int,
                    c as int,
                ) && can_move_to(self@, r as int, c as int, col) && m == simple_move(
                    from,
                    r as int,
                    c as int,
                )),
    {
        if 0 <= r && r < 8 && 0 <= c && c < 8 {
            if self.can_move_at(r as usize, c as usize, col) {
                let mv = Move {
                    from,
                    to: Position { row: r as usize, col: c as usize },
                    promotion: None,
                };
                moves.push(mv);
                proof {
                    assert forall|m: Move|
                        #[trigger] moves@.contains(m) <==> old(moves)@.contains(m) || m
                            == mv by {
                        lemma_push_contains(old(moves)@, mv, m);
                    }
                }
            }
        }
    }

    /// The pattern-legal knight moves from `from`, appended to `moves`.
    fn knight_moves(&self, from: Position, col: Color, moves: &mut Vec<Move>)
        requires
            self@.wf(),
            from.valid(),
        ensures
            forall|m: Move|
                #[trigger] final(moves)@.contains(m) <==> old(moves)@.contains(m) || (m.from
                    == from && knight_pattern(self@, col, m)),
    {
        let r = from.row as i32;
        let c = from.col as i32;
        self.try_step(from, r - 2, c - 1, col, moves);
        self.try_step(from, r - 2, c + 1, col, moves);
        self.try_step(from, r - 1, c - 2, col, moves);
        self.try_step(from, r - 1, c + 2, col, moves);
        self.try_step(from, r + 1, c - 2, col, moves);
        self.try_step(from, r + 1, c + 2, col, moves);
        self.try_step(from, r + 2, c - 1, col, moves);
        self.try_step(from, r + 2, c + 1, col, moves);
    }

    /// Walks the ray from `(r, c)` in direction `(dr, dc)`, appending a
    /// move for every empty square and one capture at the first opposing
    /// piece, then stopping.
    fn slide_from(
        &self,
        from: Position,
        r: i32,
        c: i32,
        dr: i32,
        dc: i32,
        col: Color,
        steps: u32,
        moves: &mut Vec<Move>,
    )
        requires
            self@.wf(),
            from.valid(),
            0 <= r < 8,
            0 <= c < 8,
            -1 <= dr <= 1,
            -1 <= dc <= 1,
            steps <= 8,
        ensures
            forall|m: Move|
                #[trigger] final(moves)@.contains(m) <==> old(moves)@.contains(m) || (m.from
                    == from && m.promotion is None && can_move_to(
                    self@,
                    m.to.row as int,
                    m.to.col as int,
                    col,
                ) && ray_reaches(
                    self@,
                    r as int,
                    c as int,
                    dr as int,
                    dc as int,
                    m.to.row as int,
                    m.to.col as int,
                    steps as nat,
                )),
        decreases steps,
    {
        if steps == 0 {
            return ;
        }
        let nr = r + dr;
        let nc = c + dc;
        if nr < 0 || nr >= 8 || nc < 0 || nc >= 8 {
            return ;
        }
        match self.at_rc(nr as usize, nc as usize) {
            None => {
                let mv = Move {
                    from,
                    to: Position { row: nr as usize, col: nc as usize },
                    promotion: None,
                };
                moves.push(mv);
                proof {
                    assert forall|m: Move|
                        #[trigger] moves@.contains(m) <==> old(moves)@.contains(m) || m
                            == mv by {
                        lemma_push_contains(old(moves)@, mv, m);
                    }
                }
                self.slide_from(from, nr, nc, dr, dc, col, steps - 1, moves);
            },
            Some(p) => {
                if p.color() != col {
                    let mv = Move {
                        from,
                        to: Position { row: nr as usize, col: nc as usize },
                        promotion: None,
                    };
                    moves.push(mv);
                    proof {
                        assert forall|m: Move|
                            #[trigger] moves@.contains(m) <==> old(moves)@.contains(m) || m
                                == mv by {
                            lemma_push_contains(old(moves)@, mv, m);
                        }
                    }
                }
            },
        }
    }

    /// The pattern-legal bishop moves from `from`, appended to `moves`.
    fn bishop_moves(&self, from: Position, col: Color, moves: &mut Vec<Move>)
        requires
            self@.wf(),
            from.valid(),
        ensures
            forall|m: Move|
                #[trigger] final(moves)@.contains(m) <==> old(moves)@.contains(m) || (m.from
                    == from && crate::rules::bishop_pattern(self@, col, m)),
    {
        let r = from.row as i32;
        let c = from.col as i32;
        self.slide_from(from, r, c, -1, -1, col, 7, moves);
        self.slide_from(from, r, c, -1, 1, col, 7, moves);
        self.slide_from(from, r, c, 1, -1, col, 7, moves);
        self.slide_from(from, r, c, 1, 1, col, 7, moves);
    }

    /// The pattern-legal rook moves from `from`, appended to `moves`.
    fn rook_moves(&self, from: Position, col: Color, moves: &mut Vec<Move>)
        requires
            self@.wf(),
            from.valid(),
        ensures
            forall|m: Move|
                #[trigger] final(moves)@.contains(m) <==> old(moves)@.contains(m) || (m.from
                    == from && crate::rules::rook_pattern(self@, col, m)),
    {
        let r = from.row as i32;
        let c = from.col as i32;
        self.slide_from(from, r, c, -1, 0, col, 7, moves);
        self.slide_from(from, r, c, 1, 0, col, 7, moves);
        self.slide_from(from, r, c, 0, -1, col, 7, moves);
        self.slide_from(from, r, c, 0, 1, col, 7, moves);
    }

    /// The pattern-legal queen moves from `from`, appended to `moves`.
    fn queen_moves(&self, from: Position, col: Color, moves: &mut Vec<Move>)
        requires
            self@.wf(),
            from.valid(),
        ensures
            forall|m: Move|
                #[trigger] final(moves)@.contains(m) <==> old(moves)@.contains(m) || (m.from
                    == from && crate::rules::queen_pattern(self@, col, m)),
    {
        self.bishop_moves(from, col, moves);
        self.rook_moves(from, col, moves);
    }

    /// The castling moves available to the king of `col` standing on
    /// `from`, appended to `moves`.
    fn castling_moves(&self, from: Position, col: Color, moves: &mut Vec<Move>)
        requires
            self@.wf(),
            from.valid(),
        ensures
            forall|m: Move|
                #[trigger] final(moves)@.contains(m) <==> old(moves)@.contains(m) || (m.from
                    == from && castle_pattern(self@, col, m)),
    {
        let b: usize = match col {
            Color::White => 7,
            Color::Black => 0,
        };
        if from.row != b || from.col != 4 {
            return ;
        }
        let opp = col.opposite();
        let origin = Position { row: b, col: 4 };
        if self.is_square_attacked(origin, opp) {
            return ;
        }
        let kingside = match col {
            Color::White => self.castling_rights.white_kingside,
            Color::Black => self.castling_rights.black_kingside,
        };
        if kingside {
            if self.at_rc(b, 5).is_none() && self.at_rc(b, 6).is_none()
                && !self.is_square_attacked(Position { row: b, col: 5 }, opp)
                && !self.is_square_attacked(Position { row: b, col: 6 }, opp) {
                let mv = Move { from, to: Position { row: b, col: 6 }, promotion: None };
                moves.push(mv);
                proof {
                    assert forall|m: Move|
                        #[trigger] moves@.contains(m) <==> old(moves)@.contains(m) || m
                            == mv by {
                        lemma_push_contains(old(moves)@, mv, m);
                    }
                }
            }
        }
        let queenside = match col {
            Color::White => self.castling_rights.white_queenside,
            Color::Black => self.castling_rights.black_queenside,
        };
        if queenside {
            if self.at_rc(b, 1).is_none() && self.at_rc(b, 2).is_none() && self.at_rc(b, 3).is_none()
                && !self.is_square_attacked(Position { row: b, col: 2 }, opp)
                && !self.is_square_attacked(Position { row: b, col: 3 }, opp) {
                let mv = Move { from, to: Position { row: b, col: 2 }, promotion: None };
                let ghost before = moves@;
                moves.push(mv);
                proof {
                    assert forall|m: Move|
                        #[trigger] moves@.contains(m) <==> before.contains(m) || m == mv by {
                        lemma_push_contains(before, mv, m);
                    }
                }
            }
        }
    }

    /// The pattern-legal king moves from `from` (single steps and
    /// castling), appended to `moves`.
    fn king_moves(&self, from: Position, col: Color, moves: &mut Vec<Move>)
        requires
            self@.wf(),
            from.valid(),
        ensures
            forall|m: Move|
                #[trigger] final(moves)@.contains(m) <==> old(moves)@.contains(m) || (m.from
                    == from && (king_step_pattern(self@, col, m) || castle_pattern(
                    self@,
                    col,
                    m,
                ))),
    {
        let r = from.row as i32;
        let c = from.col as i32;
        self.try_step(from, r - 1, c - 1, col, moves);
        self.try_step(from, r - 1, c, col, moves);
        self.try_step(from, r - 1, c + 1, col, moves);
        self.try_step(from, r, c - 1, col, moves);
        self.try_step(from, r, c + 1, col, moves);
        self.try_step(from, r + 1, c - 1, col, moves);
        self.try_step(from, r + 1, c, col, moves);
        self.try_step(from, r + 1, c + 1, col, moves);
        self.castling_moves(from, col, moves);
    }

    /// Appends the pawn move from `from` to `(to_row, to_col)`: four moves,
    /// one per promotion choice, when the destination is the promotion row,
    /// otherwise the single plain move.
    fn add_pawn_move(
        &self,
        from: Position,
        to_row: usize,
        to_col: usize,
        col: Color,
        moves: &mut Vec<Move>,
    )
        requires
            self@.wf(),
            from.valid(),
            to_row < 8,
            to_col < 8,
        ensures
            forall|m: Move|
                #[trigger] final(moves)@.contains(m) <==> old(moves)@.contains(m) || (m.from
                    == from && m.to == (Position { row: to_row, col: to_col })
                    && pawn_promotion_ok(col, to_row as int, m.promotion)),
    {
        let to = Position { row: to_row, col: to_col };
        let promotion_row: usize = match col {
            Color::White => 0,
            Color::Black => 7,
        };
        if to_row == promotion_row {
            let q = Move { from, to, promotion: Some(Piece::Queen(col)) };
            let r = Move { from, to, promotion: Some(Piece::Rook(col)) };
            let b = Move { from, to, promotion: Some(Piece::Bishop(col)) };
            let n = Move { from, to, promotion: Some(Piece::Knight(col)) };
            let ghost s0 = moves@;
            moves.push(q);
            let ghost s1 = moves@;
            moves.push(r);
            let ghost s2 = moves@;
            moves.push(b);
            let ghost s3 = moves@;
            moves.push(n);
            proof {
                assert forall|m: Move|
                    #[trigger] moves@.contains(m) <==> s0.contains(m) || m == q || m == r || m == b
                        || m == n by {
                    lemma_push_contains(s0, q, m);
                    lemma_push_contains(s1, r, m);
                    lemma_push_contains(s2, b, m);
                    lemma_push_contains(s3, n, m);
                }
            }
        } else {
            let mv = Move { from, to, promotion: None };
            moves.push(mv);
            proof {
                assert forall|m: Move|
                    #[trigger] moves@.contains(m) <==> old(moves)@.contains(m) || m == mv by {
                    lemma_push_contains(old(moves)@, mv, m);
                }
            }
        }
    }

    /// The pattern-legal pawn moves from `from`, appended to `moves`:
    /// pushes, double pushes, diagonal captures and en-passant captures.
    fn pawn_moves(&self, from: Position, col: Color, moves: &mut Vec<Move>)
        requires
            self@.wf(),
            from.valid(),
        ensures
            forall|m: Move|
                #[trigger] final(moves)@.contains(m) <==> old(moves)@.contains(m) || (m.from
                    == from && pawn_pattern(self@, col, m)),
    {
        let fr = from.row;
        let fc = from.col;
        let dir: i32 = match col {
            Color::White => -1,
            Color::Black => 1,
        };
        let nr = fr as i32 + dir;
        if nr < 0 || nr >= 8 {
            return ;
        }
        let nru = nr as usize;

        if self.at_rc(nru, fc).is_none() {
            self.add_pawn_move(from, nru, fc, col, moves);
            let start_row: usize = match col {
                Color::White => 6,
                Color::Black => 1,
            };
            if fr == start_row {
                let double_row = (fr as i32 + 2 * dir) as usize;
                if self.at_rc(double_row, fc).is_none() {
                    let mv = Move {
                        from,
                        to: Position { row: double_row, col: fc },
                        promotion: None,
                    };
                    let ghost before = moves@;
                    moves.push(mv);
                    proof {
                        assert forall|m: Move|
                            #[trigger] moves@.contains(m) <==> before.contains(m) || m == mv by {
                            lemma_push_contains(before, mv, m);
                        }
                    }
                }
            }
        }

        if fc > 0 {
            if self.can_capture_at(nru, fc - 1, col) {
                self.add_pawn_move(from, nru, fc - 1, col, moves);
            }
        }
        if fc < 7 {
            if self.can_capture_at(nru, fc + 1, col) {
                self.add_pawn_move(from, nru, fc + 1, col, moves);
            }
        }

        if let Some(e) = self.en_passant_target {
            if e.row as i32 == nr && (e.col as i32 == fc as i32 - 1 || e.col as i32 == fc as i32
                + 1) {
                let behind = (e.row as i32 - dir) as usize;
                if let Some(Piece::Pawn(pc)) = self.at_rc(behind, e.col) {
                    if pc != col {
                        let mv = Move { from, to: e, promotion: None };
                        let ghost before = moves@;
                        moves.push(mv);
                        proof {
                            assert forall|m: Move|
                                #[trigger] moves@.contains(m) <==> before.contains(m) || m
                                    == mv by {
                                lemma_push_contains(before, mv, m);
                            }
                        }
                    }
                }
            }
        }
    }

    /// An independent copy of the whole state, for the legality filter's
    /// scratch simulation.
    fn clone_board(&self) -> (r: Chessboard)
        requires
            self@.wf(),
        ensures
            r@ == self@,
    {
        let mut board: Vec<Option<Piece>> = Vec::new();
        let mut i: usize = 0;
        while i < self.board.len()
            invariant
                i <= self.board.len(),
                board@.len() == i,
                forall|j: int| 0 <= j < i ==> board@[j] == self.board@[j],
            decreases self.board.len() - i,
        {
            board.push(self.board[i]);
            i = i + 1;
        }
        let mut history: Vec<String> = Vec::new();
        let mut k: usize = 0;
        while k < self.move_history.len()
            invariant
                k <= self.move_history.len(),
                history@.len() == k,
                forall|j: int| 0 <= j < k ==> history@[j]@ == self.move_history@[j]@,
            decreases self.move_history.len() - k,
        {
            history.push(self.move_history[k].clone());
            k = k + 1;
        }
        let r = Chessboard {
            board,
            current_turn: self.current_turn,
            castling_rights: self.castling_rights,
            en_passant_target: self.en_passant_target,
            move_history: history,
        };
        proof {
            assert(r@.squares =~= self@.squares);
            assert(r@.history =~= self@.history);
        }
        r
    }

    /// The legal moves of the piece on `from`: empty when the square is
    /// empty, off the board, or holds a piece whose color is not the side
    /// to move; otherwise exactly the pattern-legal candidates that leave
    /// the mover's own king not attacked.
    pub fn get_legal_moves(&self, from: Position) -> (r: Vec<Move>)
        requires
            self@.wf(),
        ensures
            forall|m: Move| #[trigger] r@.contains(m) <==> (m.from == from && legal(self@, m)),
    {
        let mut candidates: Vec<Move> = Vec::new();
        if from.row >= 8 || from.col >= 8 {
            return candidates;
        }
        let piece = match self.get(from) {
            Some(p) => p,
            None => {
                return candidates;
            },
        };
        if piece.color() != self.current_turn {
            return candidates;
        }
        match piece {
            Piece::Pawn(c) => self.pawn_moves(from, c, &mut candidates),
            Piece::Knight(c) => self.knight_moves(from, c, &mut candidates),
            Piece::Bishop(c) => self.bishop_moves(from, c, &mut candidates),
            Piece::Rook(c) => self.rook_moves(from, c, &mut candidates),
            Piece::Queen(c) => self.queen_moves(from, c, &mut candidates),
            Piece::King(c) => self.king_moves(from, c, &mut candidates),
        }
        proof {
            assert forall|m: Move|
                #[trigger] candidates@.contains(m) <==> (m.from == from && pattern_legal(
                    self@,
                    m,
                )) by {}
        }

        let mut result: Vec<Move> = Vec::new();
        let mut i: usize = 0;
        while i < candidates.len()
            invariant
                self@.wf(),
                i <= candidates@.len(),
                forall|m: Move|
                    #[trigger] candidates@.contains(m) <==> (m.from == from && pattern_legal(
                        self@,
                        m,
                    )),
                forall|m: Move|
                    #[trigger] result@.contains(m) ==> (m.from == from && legal(self@, m)),
                forall|j: int|
                    0 <= j < i && legal(self@, candidates@[j]) ==> result@.contains(
                        #[trigger] candidates@[j],
                    ),
            decreases candidates@.len() - i,
        {
            let mv = candidates[i];
            proof {
                assert(candidates@.contains(candidates@[i as int]));
            }
            let mut scratch = self.clone_board();
            scratch.make_move_unchecked(&mv);
            let safe = !scratch.is_in_check(self.current_turn);
            if safe {
                let ghost before = result@;
                result.push(mv);
                proof {
                    assert forall|m: Move|
                        #[trigger] result@.contains(m) <==> before.contains(m) || m == mv by {
                        lemma_push_contains(before, mv, m);
                    }
                }
            }
            i = i + 1;
        }
        proof {
            assert forall|m: Move|
                #[trigger] result@.contains(m) <==> (m.from == from && legal(self@, m)) by {
                if m.from == from && legal(self@, m) {
                    assert(candidates@.contains(m));
                    let j = choose|j: int|
                        0 <= j < candidates@.len() && candidates@[j] == m;
                    assert(result@.contains(candidates@[j]));
                }
            }
        }
        result
    }
}

} // verus!
