//! The serializer: a board state rendered as compact position text (the
//! FEN layout), rank by rank from rank 8 down, with empty runs as digits,
//! then the side to move, the castling letters, the en-passant target and
//! the fixed halfmove/fullmove placeholders.

use vstd::prelude::*;
use crate::board::Chessboard;
use crate::model::Model;
use crate::notation::{file_char_exec, pos_chars, push_char, rank_char_exec};
use crate::piece::{CastlingRights, Color, Piece};

verus! {

/// The letter a piece is encoded as: uppercase for White, lowercase for
/// Black.
pub open spec fn piece_char(p: Piece) -> char {
    match p {
        Piece::King(Color::White) => 'K',
        Piece::Queen(Color::White) => 'Q',
        Piece::Rook(Color::White) => 'R',
        Piece::Bishop(Color::White) => 'B',
        Piece::Knight(Color::White) => 'N',
        Piece::Pawn(Color::White) => 'P',
        Piece::King(Color::Black) => 'k',
        Piece::Queen(Color::Black) => 'q',
        Piece::Rook(Color::Black) => 'r',
        Piece::Bishop(Color::Black) => 'b',
        Piece::Knight(Color::Black) => 'n',
        Piece::Pawn(Color::Black) => 'p',
    }
}

/// The digit encoding a run of `n` empty squares, 1 through 8.
pub open spec fn digit_char(n: int) -> char {
    if n == 1 {
        '1'
    } else if n == 2 {
        '2'
    } else if n == 3 {
        '3'
    } else if n == 4 {
        '4'
    } else if n == 5 {
        '5'
    } else if n == 6 {
        '6'
    } else if n == 7 {
        '7'
    } else {
        '8'
    }
}

/// The pending empty run, flushed as one digit (or nothing when empty).
pub open spec fn run_chars(run: int) -> Seq<char> {
    if run > 0 {
        seq![digit_char(run)]
    } else {
        Seq::empty()
    }
}

/// The encoding of row `r` from column `c` on, with `run` empty squares
/// already pending.
pub open spec fn row_fen(m: Model, r: int, c: int, run: int) -> Seq<char>
    decreases 8 - c,
{
    if c < 0 || c >= 8 {
        run_chars(run)
    } else {
        match m.at(r, c) {
            None => row_fen(m, r, c + 1, run + 1),
            Some(p) => run_chars(run) + seq![piece_char(p)] + row_fen(m, r, c + 1, 0),
        }
    }
}

/// The encoding of rows `r` through 7, separated by '/'.
pub open spec fn board_fen(m: Model, r: int) -> Seq<char>
    decreases 8 - r,
{
    if r < 0 || r >= 8 {
        Seq::empty()
    } else if r == 7 {
        row_fen(m, 7, 0, 0)
    } else {
        row_fen(m, r, 0, 0) + seq!['/'] + board_fen(m, r + 1)
    }
}

/// The castling letters in the fixed order K, Q, k, q; a single '-' when
/// no right holds.
pub open spec fn castling_fen(r: CastlingRights) -> Seq<char> {
    let s = (if r.white_kingside {
        seq!['K']
    } else {
        Seq::empty()
    }) + (if r.white_queenside {
        seq!['Q']
    } else {
        Seq::empty()
    }) + (if r.black_kingside {
        seq!['k']
    } else {
        Seq::empty()
    }) + (if r.black_queenside {
        seq!['q']
    } else {
        Seq::empty()
    });
    if s.len() == 0 {
        seq!['-']
    } else {
        s
    }
}

/// The full position text of a model: board, side to move, castling
/// letters, en-passant target, and the fixed counters "0 1".
pub open spec fn fen_chars(m: Model) -> Seq<char> {
    board_fen(m, 0) + seq![' '] + (match m.turn {
        Color::White => seq!['w'],
        Color::Black => seq!['b'],
    }) + seq![' '] + castling_fen(m.rights) + seq![' '] + (match m.ep {
        Some(e) => pos_chars(e),
        None => seq!['-'],
    }) + seq![' ', '0', ' ', '1']
}

/// The letter of a piece, as executable code.
fn piece_char_exec(p: Piece) -> (r: char)
    ensures
        r == piece_char(p),
{
    match p {
        Piece::King(Color::White) => 'K',
        Piece::Queen(Color::White) => 'Q',
        Piece::Rook(Color::White) => 'R',
        Piece::Bishop(Color::White) => 'B',
        Piece::Knight(Color::White) => 'N',
        Piece::Pawn(Color::White) => 'P',
        Piece::King(Color::Black) => 'k',
        Piece::Queen(Color::Black) => 'q',
        Piece::Rook(Color::Black) => 'r',
        Piece::Bishop(Color::Black) => 'b',
        Piece::Knight(Color::Black) => 'n',
        Piece::Pawn(Color::Black) => 'p',
    }
}

/// The digit of an empty run, as executable code.
fn digit_char_exec(n: usize) -> (r: char)
    requires
        1 <= n <= 8,
    ensures
        r == digit_char(n as int),
{
    match n {
        1 => '1',
        2 => '2',
        3 => '3',
        4 => '4',
        5 => '5',
        6 => '6',
        7 => '7',
        _ => '8',
    }
}

impl Chessboard {
    /// Appends the encoding of row `r` from column `c` on, with `run`
    /// pending empty squares.
    fn fen_row(&self, r: usize, c: usize, run: usize, s: &mut String)
        requires
            self@.wf(),
            r < 8,
            c <= 8,
            run <= c,
        ensures
            final(s)@ == old(s)@ + row_fen(self@, r as int, c as int, run as int),
        decreases 8 - c,
    {
        if c >= 8 {
            if run > 0 {
                push_char(s, digit_char_exec(run));
            }
            proof {
                assert(s@ =~= old(s)@ + row_fen(self@, r as int, c as int, run as int));
            }
            return ;
        }
        match self.at_rc(r, c) {
            None => {
                self.fen_row(r, c + 1, run + 1, s);
            },
            Some(p) => {
                if run > 0 {
                    push_char(s, digit_char_exec(run));
                }
                push_char(s, piece_char_exec(p));
                self.fen_row(r, c + 1, 0, s);
                proof {
                    assert(s@ =~= old(s)@ + row_fen(self@, r as int, c as int, run as int));
                }
            },
        }
    }

    /// Appends the encoding of rows `r` through 7, separated by '/'.
    fn fen_rows(&self, r: usize, s: &mut String)
        requires
            self@.wf(),
            r < 8,
        ensures
            final(s)@ == old(s)@ + board_fen(self@, r as int),
        decreases 8 - r,
    {
        self.fen_row(r, 0, 0, s);
        if r < 7 {
            push_char(s, '/');
            self.fen_rows(r + 1, s);
            proof {
                assert(s@ =~= old(s)@ + board_fen(self@, r as int));
            }
        }
    }

    /// Appends the castling letters (or '-').
    fn castling_text(&self, s: &mut String)
        ensures
            final(s)@ == old(s)@ + castling_fen(self@.rights),
    {
        let mut any = false;
        if self.castling_rights.white_kingside {
            push_char(s, 'K');
            any = true;
        }
        if self.castling_rights.white_queenside {
            push_char(s, 'Q');
            any = true;
        }
        if self.castling_rights.black_kingside {
            push_char(s, 'k');
            any = true;
        }
        if self.castling_rights.black_queenside {
            push_char(s, 'q');
            any = true;
        }
        if !any {
            push_char(s, '-');
        }
        proof {
            assert(s@ =~= old(s)@ + castling_fen(self@.rights));
        }
    }

    /// The compact position text of the current state. The halfmove and
    /// fullmove counters are not tracked and are rendered as the fixed
    /// placeholders "0 1".
    #[verifier::rlimit(60)]
    pub fn to_fen(&self) -> (s: String)
        requires
            self@.wf(),
        ensures
            s@ == fen_chars(self@),
    {
        let mut s = String::new();
        self.fen_rows(0, &mut s);
        push_char(&mut s, ' ');
        match self.current_turn {
            Color::White => push_char(&mut s, 'w'),
            Color::Black => push_char(&mut s, 'b'),
        }
        push_char(&mut s, ' ');
        self.castling_text(&mut s);
        push_char(&mut s, ' ');
        match self.en_passant_target {
            Some(e) => {
                push_char(&mut s, file_char_exec(e.col));
                push_char(&mut s, rank_char_exec(e.row));
            },
            None => push_char(&mut s, '-'),
        }
        push_char(&mut s, ' ');
        push_char(&mut s, '0');
        push_char(&mut s, ' ');
        push_char(&mut s, '1');
        proof {
            assert(s@ =~= fen_chars(self@));
        }
        s
    }
}

} // verus!
