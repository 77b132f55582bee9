//! The unchecked mutation path: applying a move that was already drawn from
//! a legal-move list (or is being simulated by the legality filter).

use vstd::prelude::*;
use crate::board::Chessboard;
use crate::piece::{Color, Move, Piece, Position};
use crate::rules::apply_move;

verus! {

impl Chessboard {
    /// Applies `mv` without re-checking legality, updating the grid, the
    /// castling rights, the en-passant target and the turn exactly as
    /// `apply_move` describes. Trusted input: it is only ever invoked on
    /// moves drawn from a legal-move list or inside the legality filter's
    /// scratch simulation; on an empty source square it changes nothing.
    pub(crate) fn make_move_unchecked(&mut self, mv: &Move)
        requires
            old(self)@.wf(),
            mv.from.valid(),
            mv.to.valid(),
        ensures
            final(self)@ == apply_move(old(self)@, *mv),
            final(self)@.wf(),
    {
        let fr = mv.from.row;
        let fc = mv.from.col;
        let tr = mv.to.row;
        let tc = mv.to.col;
        let piece = match self.at_rc(fr, fc) {
            Some(p) => p,
            None => {
                return ;
            },
        };
        self.set_rc(fr, fc, None);

        if let Piece::King(col) = piece {
            if fc == tc + 2 || tc == fc + 2 {
                if tc == 6 {
                    let rook = self.at_rc(fr, 7);
                    self.set_rc(fr, 5, rook);
                    self.set_rc(fr, 7, None);
                } else if tc == 2 {
                    let rook = self.at_rc(fr, 0);
                    self.set_rc(fr, 3, rook);
                    self.set_rc(fr, 0, None);
                }
            }
            let origin_row: usize = match col {
                Color::White => 7,
                Color::Black => 0,
            };
            if fr == origin_row && fc == 4 {
                match col {
                    Color::White => {
                        self.castling_rights.white_kingside = false;
                        self.castling_rights.white_queenside = false;
                    },
                    Color::Black => {
                        self.castling_rights.black_kingside = false;
                        self.castling_rights.black_queenside = false;
                    },
                }
            }
        }

        if let Piece::Rook(col) = piece {
            let corner_row: usize = match col {
                Color::White => 7,
                Color::Black => 0,
            };
            if fr == corner_row {
                if fc == 0 {
                    match col {
                        Color::White => self.castling_rights.white_queenside = false,
                        Color::Black => self.castling_rights.black_queenside = false,
                    }
                } else if fc == 7 {
                    match col {
                        Color::White => self.castling_rights.white_kingside = false,
                        Color::Black => self.castling_rights.black_kingside = false,
                    }
                }
            }
        }

        let mut placed = piece;
        if let Piece::Pawn(_) = piece {
            if let Some(e) = self.en_passant_target {
                if tr == e.row && tc == e.col {
                    self.set_rc(fr, tc, None);
                }
            }
            if fr == tr + 2 || tr == fr + 2 {
                self.en_passant_target = Some(Position { row: (fr + tr) / 2, col: fc });
            } else {
                self.en_passant_target = None;
            }
            if let Some(pp) = mv.promotion {
                placed = pp;
            }
        } else {
            self.en_passant_target = None;
        }

        self.set_rc(tr, tc, Some(placed));
        self.current_turn = self.current_turn.opposite();
    }
}

} // verus!
