//! Game-level operations: submitting a move, the checkmate and stalemate
//! oracles, and the uniform-random fallback move.

use vstd::prelude::*;
use vstd::string::StringExecFns;
use crate::board::Chessboard;
use crate::notation::{log_text, move_log_chars};
use crate::piece::{opposite_color, Move, Position};
use crate::random::random_below;
use crate::rules::{
    apply_move, checkmate, has_legal_move, legal, legal_from_to, stalemate,
};

verus! {

impl Chessboard {
    /// Whether the side to move has any legal move anywhere on the board.
    fn has_any_legal_move(&self) -> (r: bool)
        requires
            self@.wf(),
        ensures
            r == has_legal_move(self@),
    {
        let mut row: usize = 0;
        while row < 8
            invariant
                self@.wf(),
                row <= 8,
                forall|mv: Move| #[trigger] legal(self@, mv) ==> !(mv.from.row < row),
            decreases 8 - row,
        {
            let mut col: usize = 0;
            while col < 8
                invariant
                    self@.wf(),
                    row < 8,
                    col <= 8,
                    forall|mv: Move| #[trigger] legal(self@, mv) ==> !(mv.from.row < row),
                    forall|mv: Move|
                        #[trigger] legal(self@, mv) ==> !(mv.from.row == row && mv.from.col
                            < col),
                decreases 8 - col,
            {
                let pos = Position { row, col };
                let moves = self.get_legal_moves(pos);
                if moves.len() > 0 {
                    proof {
                        assert(moves@.contains(moves@[0]));
                    }
                    return true;
                }
                proof {
                    assert forall|mv: Move| #[trigger] legal(self@, mv) implies !(mv.from.row
                        == row && mv.from.col == col) by {
                        if mv.from.row == row && mv.from.col == col {
                            assert(mv.from == pos);
                            assert(moves@.contains(mv));
                        }
                    }
                }
                col = col + 1;
            }
            row = row + 1;
        }
        proof {
            if has_legal_move(self@) {
                let mv = choose|mv: Move| #[trigger] legal(self@, mv);
                assert(mv.from.valid());
                assert(false);
            }
        }
        false
    }

    /// Checkmate: the side to move is in check and has no legal move.
    pub fn is_checkmate(&self) -> (r: bool)
        requires
            self@.wf(),
        ensures
            r == checkmate(self@),
    {
        if !self.is_in_check(self.current_turn) {
            return false;
        }
        !self.has_any_legal_move()
    }

    /// Stalemate: the side to move is not in check and has no legal move.
    pub fn is_stalemate(&self) -> (r: bool)
        requires
            self@.wf(),
        ensures
            r == stalemate(self@),
    {
        if self.is_in_check(self.current_turn) {
            return false;
        }
        !self.has_any_legal_move()
    }

    /// Submits a move. It succeeds exactly when some legal move leads from
    /// its source to its destination; then the move (with its promotion
    /// choice) is applied, its notation is logged, and the turn flips.
    /// On failure the state is untouched and an illegal-move error comes
    /// back.
    pub fn make_move(&mut self, mv: &Move) -> (r: Result<(), String>)
        requires
            old(self)@.wf(),
        ensures
            final(self)@.wf(),
            r is Ok <==> legal_from_to(old(self)@, mv.from, mv.to),
            r matches Err(e) ==> final(self)@ == old(self)@ && e@ == "illegal move"@,
            r is Ok ==> final(self)@.squares == apply_move(old(self)@, *mv).squares
                && final(self)@.turn == opposite_color(old(self)@.turn) && final(self)@.rights
                == apply_move(old(self)@, *mv).rights && final(self)@.ep == apply_move(
                old(self)@,
                *mv,
            ).ep && final(self)@.history == old(self)@.history.push(move_log_chars(*mv)),
    {
        if mv.from.row >= 8 || mv.from.col >= 8 || mv.to.row >= 8 || mv.to.col >= 8 {
            proof {
                if legal_from_to(self@, mv.from, mv.to) {
                    let lm = choose|lm: Move|
                        #[trigger] legal(self@, lm) && lm.from == mv.from && lm.to == mv.to;
                    assert(false);
                }
            }
            return Err(String::from_str("illegal move"));
        }
        let legal_moves = self.get_legal_moves(mv.from);
        let mut found = false;
        let mut i: usize = 0;
        while i < legal_moves.len()
            invariant
                self@ == old(self)@,
                self@.wf(),
                i <= legal_moves@.len(),
                forall|m: Move|
                    #[trigger] legal_moves@.contains(m) <==> (m.from == mv.from && legal(
                        self@,
                        m,
                    )),
                found ==> legal_from_to(self@, mv.from, mv.to),
                !found ==> forall|j: int|
                    0 <= j < i ==> !((#[trigger] legal_moves@[j]).from == mv.from
                        && legal_moves@[j].to == mv.to),
            decreases legal_moves@.len() - i,
        {
            let lm = legal_moves[i];
            if lm.from == mv.from && lm.to == mv.to {
                proof {
                    assert(legal_moves@.contains(legal_moves@[i as int]));
                }
                found = true;
            }
            i = i + 1;
        }
        if !found {
            proof {
                if legal_from_to(self@, mv.from, mv.to) {
                    let lm = choose|lm: Move|
                        #[trigger] legal(self@, lm) && lm.from == mv.from && lm.to == mv.to;
                    assert(legal_moves@.contains(lm));
                    let j = choose|j: int|
                        0 <= j < legal_moves@.len() && legal_moves@[j] == lm;
                    assert(false);
                }
            }
            return Err(String::from_str("illegal move"));
        }

        let text = log_text(mv);
        self.move_history.push(text);
        proof {
            assert(self@.history =~= old(self)@.history.push(move_log_chars(*mv)));
        }
        self.make_move_unchecked(mv);
        Ok(())
    }

    /// One legal move of the side to move, drawn at random; nothing exactly
    /// when no legal move exists (a terminal position).
    pub fn get_random_legal_move(&self) -> (r: Option<Move>)
        requires
            self@.wf(),
        ensures
            r matches Some(m) ==> legal(self@, m),
            r is Some <==> has_legal_move(self@),
    {
        let mut all: Vec<Move> = Vec::new();
        let mut row: usize = 0;
        while row < 8
            invariant
                self@.wf(),
                row <= 8,
                forall|k: int| 0 <= k < all@.len() ==> legal(self@, #[trigger] all@[k]),
                all@.len() == 0 ==> (forall|mv: Move|
                    #[trigger] legal(self@, mv) ==> !(mv.from.row < row)),
            decreases 8 - row,
        {
            let mut col: usize = 0;
            while col < 8
                invariant
                    self@.wf(),
                    row < 8,
                    col <= 8,
                    forall|k: int| 0 <= k < all@.len() ==> legal(self@, #[trigger] all@[k]),
                    all@.len() == 0 ==> (forall|mv: Move|
                        #[trigger] legal(self@, mv) ==> !(mv.from.row < row)),
                    all@.len() == 0 ==> (forall|mv: Move|
                        #[trigger] legal(self@, mv) ==> !(mv.from.row == row && mv.from.col
                            < col)),
                decreases 8 - col,
            {
                let pos = Position { row, col };
                let moves = self.get_legal_moves(pos);
                if moves.len() == 0 {
                    proof {
                        assert forall|mv: Move| #[trigger] legal(self@, mv) implies !(
                        mv.from.row == row && mv.from.col == col) by {
                            if mv.from.row == row && mv.from.col == col {
                                assert(mv.from == pos);
                                assert(moves@.contains(mv));
                            }
                        }
                    }
                } else {
                    let mut j: usize = 0;
                    while j < moves.len()
                        invariant
                            self@.wf(),
                            j <= moves@.len(),
                            moves@.len() > 0,
                            all@.len() >= j,
                            forall|k: int|
                                0 <= k < all@.len() ==> legal(self@, #[trigger] all@[k]),
                            forall|m: Move|
                                #[trigger] moves@.contains(m) <==> (m.from == pos && legal(
                                    self@,
                                    m,
                                )),
                        decreases moves@.len() - j,
                    {
                        proof {
                            assert(moves@.contains(moves@[j as int]));
                        }
                        all.push(moves[j]);
                        j = j + 1;
                    }
                }
                col = col + 1;
            }
            row = row + 1;
        }
        if all.len() == 0 {
            proof {
                if has_legal_move(self@) {
                    let mv = choose|mv: Move| #[trigger] legal(self@, mv);
                    assert(mv.from.valid());
                    assert(false);
                }
            }
            return None;
        }
        let idx = random_below(all.len());
        let chosen = all[idx];
        Some(chosen)
    }
}

} // verus!
