//! The chessboard: the 8x8 grid, the side to move, castling rights, the
//! en-passant window and the move log, with the verified attack detector.

use vstd::prelude::*;
use vstd::pervasive::VecAdditionalExecFns;
use crate::model::{attacked, in_check, ray_attacks, Model};
use crate::piece::{CastlingRights, Color, Piece, Position, Square};

verus! {

/// The engine's board state. Its abstract value is a `Model`; every
/// operation states its effect over that model.
pub struct Chessboard {
    pub board: Vec<Option<Piece>>,
    pub current_turn: Color,
    pub castling_rights: CastlingRights,
    pub en_passant_target: Option<Position>,
    pub move_history: Vec<String>,
}

impl View for Chessboard {
    type V = Model;

    open spec fn view(&self) -> Model {
        Model {
            squares: self.board@,
            turn: self.current_turn,
            rights: self.castling_rights,
            ep: self.en_passant_target,
            history: self.move_history@.map_values(|s: String| s@),
        }
    }
}

/// The piece standing on square `i` (row-major, `i = row * 8 + col`) in the
/// standard initial layout.
pub open spec fn initial_square(i: int) -> Option<Piece> {
    let r = i / 8;
    let c = i % 8;
    if r == 1 {
        Some(Piece::Pawn(Color::Black))
    } else if r == 6 {
        Some(Piece::Pawn(Color::White))
    } else if r == 0 || r == 7 {
        let col = if r == 0 {
            Color::Black
        } else {
            Color::White
        };
        if c == 0 || c == 7 {
            Some(Piece::Rook(col))
        } else if c == 1 || c == 6 {
            Some(Piece::Knight(col))
        } else if c == 2 || c == 5 {
            Some(Piece::Bishop(col))
        } else if c == 3 {
            Some(Piece::Queen(col))
        } else {
            Some(Piece::King(col))
        }
    } else {
        None
    }
}

/// The model of a freshly created game: the standard initial layout, White
/// to move, all castling rights, no en-passant target, an empty log.
pub open spec fn initial_model() -> Model {
    Model {
        squares: Seq::new(64, |i: int| initial_square(i)),
        turn: Color::White,
        rights: CastlingRights {
            white_kingside: true,
            white_queenside: true,
            black_kingside: true,
            black_queenside: true,
        },
        ep: None,
        history: Seq::empty(),
    }
}

/// The initial content of square `i`, as executable code.
fn initial_square_exec(i: usize) -> (r: Option<Piece>)
    requires
        i < 64,
    ensures
        r == initial_square(i as int),
{
    let row = i / 8;
    let c = i % 8;
    if row == 1 {
        Some(Piece::Pawn(Color::Black))
    } else if row == 6 {
        Some(Piece::Pawn(Color::White))
    } else if row == 0 || row == 7 {
        let col = if row == 0 {
            Color::Black
        } else {
            Color::White
        };
        if c == 0 || c == 7 {
            Some(Piece::Rook(col))
        } else if c == 1 || c == 6 {
            Some(Piece::Knight(col))
        } else if c == 2 || c == 5 {
            Some(Piece::Bishop(col))
        } else if c == 3 {
            Some(Piece::Queen(col))
        } else {
            Some(Piece::King(col))
        }
    } else {
        None
    }
}

impl Chessboard {
    /// A new game in the standard initial position.
    pub fn new() -> (r: Self)
        ensures
            r@ == initial_model(),
            r@.wf(),
    {
        let mut board: Vec<Option<Piece>> = Vec::new();
        let mut i: usize = 0;
        while i < 64
            invariant
                i <= 64,
                board@.len() == i,
                forall|j: int| 0 <= j < i ==> board@[j] == initial_square(j),
            decreases 64 - i,
        {
            board.push(initial_square_exec(i));
            i = i + 1;
        }
        let result = Chessboard {
            board,
            current_turn: Color::White,
            castling_rights: CastlingRights::new(),
            en_passant_target: None,
            move_history: Vec::new(),
        };
        proof {
            assert(result@.squares =~= initial_model().squares);
            assert(result@.history =~= initial_model().history);
        }
        result
    }

    /// The content of a square.
    pub fn get(&self, pos: Position) -> (r: Square)
        requires
            self@.wf(),
            pos.valid(),
        ensures
            r == self@.at(pos.row as int, pos.col as int),
    {
        self.board[pos.row * 8 + pos.col]
    }

    /// The side to move.
    pub fn current_turn(&self) -> (r: Color)
        ensures
            r == self@.turn,
    {
        self.current_turn
    }

    /// The content of `(r, c)` by raw coordinates.
    pub(crate) fn at_rc(&self, r: usize, c: usize) -> (res: Option<Piece>)
        requires
            self@.wf(),
            r < 8,
            c < 8,
        ensures
            res == self@.at(r as int, c as int),
    {
        self.board[r * 8 + c]
    }

    /// Overwrites the content of `(r, c)`, leaving the rest of the state as
    /// it was.
    pub(crate) fn set_rc(&mut self, r: usize, c: usize, v: Option<Piece>)
        requires
            old(self)@.wf(),
            r < 8,
            c < 8,
        ensures
            final(self)@.squares == old(self)@.squares.update(r * 8 + c, v),
            final(self)@.turn == old(self)@.turn,
            final(self)@.rights == old(self)@.rights,
            final(self)@.ep == old(self)@.ep,
            final(self)@.history == old(self)@.history,
            final(self)@.wf(),
    {
        self.board.set(r * 8 + c, v);
    }

    /// Whether `(r, c)` lies on the board and holds exactly `p`. Offsets may
    /// run off the board; those coordinates hold nothing.
    pub(crate) fn piece_is(&self, r: i32, c: i32, p: Piece) -> (res: bool)
        requires
            self@.wf(),
            -16 <= r <= 16,
            -16 <= c <= 16,
        ensures
            res == self@.piece_at(r as int, c as int, p),
    {
        if 0 <= r && r < 8 && 0 <= c && c < 8 {
            match self.at_rc(r as usize, c as usize) {
                Some(q) => q == p,
                None => false,
            }
        } else {
            false
        }
    }

    /// Walks the ray from `(r, c)` in direction `(dr, dc)` and reports
    /// whether the first occupied square holds a slider of `by` moving
    /// along this ray.
    fn ray_attacked(&self, r: i32, c: i32, dr: i32, dc: i32, by: Color, steps: u32) -> (res: bool)
        requires
            self@.wf(),
            0 <= r < 8,
            0 <= c < 8,
            -1 <= dr <= 1,
            -1 <= dc <= 1,
            steps <= 8,
        ensures
            res == ray_attacks(self@, r as int, c as int, dr as int, dc as int, by, steps as nat),
        decreases steps,
    {
        if steps == 0 {
            return false;
        }
        let nr = r + dr;
        let nc = c + dc;
        if nr < 0 || nr >= 8 || nc < 0 || nc >= 8 {
            return false;
        }
        match self.at_rc(nr as usize, nc as usize) {
            Some(p) => match p {
                Piece::Queen(col) => col == by,
                Piece::Rook(col) => col == by && (dr == 0 || dc == 0),
                Piece::Bishop(col) => col == by && dr != 0 && dc != 0,
                _ => false,
            },
            None => self.ray_attacked(nr, nc, dr, dc, by, steps - 1),
        }
    }

    /// The attack detector: whether any piece of `by_color` attacks `pos`.
    /// A pure query; it never recurses into legality filtering.
    pub fn is_square_attacked(&self, pos: Position, by_color: Color) -> (res: bool)
        requires
            self@.wf(),
            pos.valid(),
        ensures
            res == attacked(self@, pos.row as int, pos.col as int, by_color),
    {
        let r = pos.row as i32;
        let c = pos.col as i32;

        let knight = Piece::Knight(by_color);
        if self.piece_is(r - 2, c - 1, knight) || self.piece_is(r - 2, c + 1, knight)
            || self.piece_is(r - 1, c - 2, knight) || self.piece_is(r - 1, c + 2, knight)
            || self.piece_is(r + 1, c - 2, knight) || self.piece_is(r + 1, c + 2, knight)
            || self.piece_is(r + 2, c - 1, knight) || self.piece_is(r + 2, c + 1, knight) {
            return true;
        }

        let d: i32 = match by_color {
            Color::White => 1,
            Color::Black => -1,
        };
        let pawn = Piece::Pawn(by_color);
        if self.piece_is(r + d, c - 1, pawn) || self.piece_is(r + d, c + 1, pawn) {
            return true;
        }

        if self.ray_attacked(r, c, -1, -1, by_color, 7) || self.ray_attacked(r, c, -1, 1, by_color, 7)
            || self.ray_attacked(r, c, 1, -1, by_color, 7)
            || self.ray_attacked(r, c, 1, 1, by_color, 7)
            || self.ray_attacked(r, c, -1, 0, by_color, 7)
            || self.ray_attacked(r, c, 1, 0, by_color, 7)
            || self.ray_attacked(r, c, 0, -1, by_color, 7)
            || self.ray_attacked(r, c, 0, 1, by_color, 7) {
            return true;
        }

        let king = Piece::King(by_color);
        if self.piece_is(r - 1, c - 1, king) || self.piece_is(r - 1, c, king)
            || self.piece_is(r - 1, c + 1, king) || self.piece_is(r, c - 1, king)
            || self.piece_is(r, c + 1, king) || self.piece_is(r + 1, c - 1, king)
            || self.piece_is(r + 1, c, king) || self.piece_is(r + 1, c + 1, king) {
            return true;
        }

        false
    }

    /// Whether `color`'s king stands on a square attacked by the other
    /// side.
    pub fn is_in_check(&self, color: Color) -> (res: bool)
        requires
            self@.wf(),
        ensures
            res == in_check(self@, color),
    {
        let opponent = color.opposite();
        let mut r: usize = 0;
        while r < 8
            invariant
                self@.wf(),
                r <= 8,
                opponent == crate::piece::opposite_color(color),
                forall|rr: int, cc: int|
                    0 <= rr < r && 0 <= cc < 8 ==> !((#[trigger] self@.at(rr, cc)) == Some(
                        Piece::King(color),
                    ) && attacked(self@, rr, cc, crate::piece::opposite_color(color))),
            decreases 8 - r,
        {
            let mut c: usize = 0;
            while c < 8
                invariant
                    self@.wf(),
                    r < 8,
                    c <= 8,
                    opponent == crate::piece::opposite_color(color),
                    forall|rr: int, cc: int|
                        0 <= rr < r && 0 <= cc < 8 ==> !((#[trigger] self@.at(rr, cc)) == Some(
                            Piece::King(color),
                        ) && attacked(self@, rr, cc, crate::piece::opposite_color(color))),
                    forall|cc: int|
                        0 <= cc < c ==> !((#[trigger] self@.at(r as int, cc)) == Some(
                            Piece::King(color),
                        ) && attacked(self@, r as int, cc, crate::piece::opposite_color(color))),
                decreases 8 - c,
            {
                if let Some(Piece::King(kc)) = self.at_rc(r, c) {
                    if kc == color {
                        let pos = Position { row: r, col: c };
                        if self.is_square_attacked(pos, opponent) {
                            return true;
                        }
                    }
                }
                c = c + 1;
            }
            r = r + 1;
        }
        false
    }
}

} // verus!
