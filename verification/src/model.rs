//! The mathematical model of a board state, and the specification of the
//! attack detector over that model.
//!
//! A `Model` is the value a `Chessboard` denotes: a 64-entry sequence of
//! squares in row-major order (row 0 = rank 8, column 0 = file a), the side
//! to move, the castling rights, the en-passant target and the move log.

use vstd::prelude::*;
use crate::piece::{CastlingRights, Color, Piece, Position};

verus! {

/// The abstract value of a chessboard.
pub ghost struct Model {
    /// The 64 squares, indexed by `row * 8 + col`.
    pub squares: Seq<Option<Piece>>,
    /// The side to move.
    pub turn: Color,
    /// The castling rights still available.
    pub rights: CastlingRights,
    /// The en-passant target square, present only on the ply right after a
    /// two-square pawn advance.
    pub ep: Option<Position>,
    /// The move log, one notation entry per applied move.
    pub history: Seq<Seq<char>>,
}

/// Whether `(r, c)` is a coordinate of the 8x8 board.
pub open spec fn on_board(r: int, c: int) -> bool {
    0 <= r < 8 && 0 <= c < 8
}

impl Model {
    /// A well-formed model has one entry per square, and an en-passant
    /// target (when present) on the board.
    pub open spec fn wf(self) -> bool {
        &&& self.squares.len() == 64
        &&& (self.ep matches Some(p) ==> p.valid())
    }

    /// The content of square `(r, c)`.
    pub open spec fn at(self, r: int, c: int) -> Option<Piece> {
        self.squares[r * 8 + c]
    }

    /// Whether `(r, c)` is on the board and holds exactly the piece `p`.
    pub open spec fn piece_at(self, r: int, c: int, p: Piece) -> bool {
        on_board(r, c) && self.at(r, c) == Some(p)
    }

    /// Whether `(r, c)` is on the board and empty.
    pub open spec fn empty_at(self, r: int, c: int) -> bool {
        on_board(r, c) && self.at(r, c) is None
    }
}

/// The row offset from a square to the rank a pawn of `by` attacks it from:
/// a White pawn attacks the two diagonal squares above it (toward row 0), so
/// it sits one row below the attacked square.
pub open spec fn pawn_attack_dir(by: Color) -> int {
    match by {
        Color::White => 1,
        Color::Black => -1,
    }
}

/// A knight of `by` gives check to `(r, c)` from one of the eight knight
/// offsets.
pub open spec fn knight_attacks(m: Model, r: int, c: int, by: Color) -> bool {
    ||| m.piece_at(r - 2, c - 1, Piece::Knight(by))
    ||| m.piece_at(r - 2, c + 1, Piece::Knight(by))
    ||| m.piece_at(r - 1, c - 2, Piece::Knight(by))
    ||| m.piece_at(r - 1, c + 2, Piece::Knight(by))
    ||| m.piece_at(r + 1, c - 2, Piece::Knight(by))
    ||| m.piece_at(r + 1, c + 2, Piece::Knight(by))
    ||| m.piece_at(r + 2, c - 1, Piece::Knight(by))
    ||| m.piece_at(r + 2, c + 1, Piece::Knight(by))
}

/// A pawn of `by` attacks `(r, c)` from an adjacent file, one rank behind
/// from the defender's perspective.
pub open spec fn pawn_attacks(m: Model, r: int, c: int, by: Color) -> bool {
    ||| m.piece_at(r + pawn_attack_dir(by), c - 1, Piece::Pawn(by))
    ||| m.piece_at(r + pawn_attack_dir(by), c + 1, Piece::Pawn(by))
}

/// The king of `by` attacks `(r, c)` from an adjacent square.
pub open spec fn king_attacks(m: Model, r: int, c: int, by: Color) -> bool {
    ||| m.piece_at(r - 1, c - 1, Piece::King(by))
    ||| m.piece_at(r - 1, c, Piece::King(by))
    ||| m.piece_at(r - 1, c + 1, Piece::King(by))
    ||| m.piece_at(r, c - 1, Piece::King(by))
    ||| m.piece_at(r, c + 1, Piece::King(by))
    ||| m.piece_at(r + 1, c - 1, Piece::King(by))
    ||| m.piece_at(r + 1, c, Piece::King(by))
    ||| m.piece_at(r + 1, c + 1, Piece::King(by))
}

/// Whether piece `p`, standing as the first occupied square along a ray of
/// direction `(dr, dc)`, attacks the ray's origin: a queen on any ray, a
/// rook on orthogonal rays, a bishop on diagonal rays.
pub open spec fn slider_threat(p: Piece, dr: int, dc: int, by: Color) -> bool {
    match p {
        Piece::Queen(col) => col == by,
        Piece::Rook(col) => col == by && (dr == 0 || dc == 0),
        Piece::Bishop(col) => col == by && dr != 0 && dc != 0,
        _ => false,
    }
}

/// Walking from `(r, c)` in direction `(dr, dc)` for at most `steps` steps,
/// the first occupied square holds a slider of `by` that moves along this
/// ray.
pub open spec fn ray_attacks(
    m: Model,
    r: int,
    c: int,
    dr: int,
    dc: int,
    by: Color,
    steps: nat,
) -> bool
    decreases steps,
{
    if steps == 0 {
        false
    } else if !on_board(r + dr, c + dc) {
        false
    } else {
        match m.at(r + dr, c + dc) {
            Some(p) => slider_threat(p, dr, dc, by),
            None => ray_attacks(m, r + dr, c + dc, dr, dc, by, (steps - 1) as nat),
        }
    }
}

/// A sliding piece of `by` attacks `(r, c)` along one of the eight rays.
/// Seven steps reach every square of an 8-wide board.
pub open spec fn slider_attacks(m: Model, r: int, c: int, by: Color) -> bool {
    ||| ray_attacks(m, r, c, -1, -1, by, 7)
    ||| ray_attacks(m, r, c, -1, 1, by, 7)
    ||| ray_attacks(m, r, c, 1, -1, by, 7)
    ||| ray_attacks(m, r, c, 1, 1, by, 7)
    ||| ray_attacks(m, r, c, -1, 0, by, 7)
    ||| ray_attacks(m, r, c, 1, 0, by, 7)
    ||| ray_attacks(m, r, c, 0, -1, by, 7)
    ||| ray_attacks(m, r, c, 0, 1, by, 7)
}

/// The attack detector: some piece of `by` attacks the square `(r, c)`.
pub open spec fn attacked(m: Model, r: int, c: int, by: Color) -> bool {
    ||| knight_attacks(m, r, c, by)
    ||| pawn_attacks(m, r, c, by)
    ||| slider_attacks(m, r, c, by)
    ||| king_attacks(m, r, c, by)
}

/// The side `col` is in check: one of its kings stands on a square attacked
/// by the opposite color. In every reachable game there is exactly one such
/// king.
pub open spec fn in_check(m: Model, col: Color) -> bool {
    exists|r: int, c: int|
        on_board(r, c) && (#[trigger] m.at(r, c)) == Some(Piece::King(col)) && attacked(
            m,
            r,
            c,
            crate::piece::opposite_color(col),
        )
}

/// Membership in a sequence extended by `push`: the new element, or one
/// that was already there.
pub proof fn lemma_push_contains<A>(s: Seq<A>, x: A, y: A)
    ensures
        s.push(x).contains(y) <==> (s.contains(y) || y == x),
{
    if s.push(x).contains(y) {
        let i = choose|i: int| 0 <= i < s.push(x).len() && s.push(x)[i] == y;
        if i < s.len() {
            assert(s[i] == y);
        }
    }
    if s.contains(y) {
        let i = choose|i: int| 0 <= i < s.len() && s[i] == y;
        assert(s.push(x)[i] == y);
    }
    if y == x {
        assert(s.push(x)[s.len() as int] == y);
    }
}

} // verus!
