//! Value types for the engine: colors, pieces, board coordinates, castling
//! rights and proposed moves.

use vstd::prelude::*;

verus! {

/// One of the two sides of a chess game.
#[derive(Debug, Clone, Copy, PartialEq, Eq, Structural)]
pub enum Color {
    White,
    Black,
}

/// The opposite of a color, as a spec-level function.
pub open spec fn opposite_color(c: Color) -> Color {
    match c {
        Color::White => Color::Black,
        Color::Black => Color::White,
    }
}

impl Color {
    /// The opposite side: White and Black swap.
    pub fn opposite(&self) -> (r: Color)
        ensures
            r == opposite_color(*self),
    {
        match self {
            Color::White => Color::Black,
            Color::Black => Color::White,
        }
    }
}

/// A chess piece: its kind together with the side that owns it.
#[derive(Debug, Clone, Copy, PartialEq, Eq, Structural)]
pub enum Piece {
    King(Color),
    Queen(Color),
    Rook(Color),
    Bishop(Color),
    Knight(Color),
    Pawn(Color),
}

/// The color owning a piece, as a spec-level function.
pub open spec fn color_of(p: Piece) -> Color {
    match p {
        Piece::King(c) => c,
        Piece::Queen(c) => c,
        Piece::Rook(c) => c,
        Piece::Bishop(c) => c,
        Piece::Knight(c) => c,
        Piece::Pawn(c) => c,
    }
}

impl Piece {
    /// The side that owns this piece.
    pub fn color(&self) -> (r: Color)
        ensures
            r == color_of(*self),
    {
        match self {
            Piece::King(c) => *c,
            Piece::Queen(c) => *c,
            Piece::Rook(c) => *c,
            Piece::Bishop(c) => *c,
            Piece::Knight(c) => *c,
            Piece::Pawn(c) => *c,
        }
    }

    /// An English name for the piece kind.
    pub fn name(&self) -> (r: &'static str)
        ensures
            r@ == spec_name(*self),
    {
        match self {
            Piece::King(_) => "king",
            Piece::Queen(_) => "queen",
            Piece::Rook(_) => "rook",
            Piece::Bishop(_) => "bishop",
            Piece::Knight(_) => "knight",
            Piece::Pawn(_) => "pawn",
        }
    }
}

/// The name `Piece::name` returns for each piece kind.
pub open spec fn spec_name(p: Piece) -> Seq<char> {
    match p {
        Piece::King(_) => "king"@,
        Piece::Queen(_) => "queen"@,
        Piece::Rook(_) => "rook"@,
        Piece::Bishop(_) => "bishop"@,
        Piece::Knight(_) => "knight"@,
        Piece::Pawn(_) => "pawn"@,
    }
}

/// A square on the board: empty, or holding a piece.
pub type Square = Option<Piece>;

/// The four castling rights. Each starts true and is only ever cleared.
#[derive(Debug, Clone, Copy, PartialEq, Eq, Structural)]
pub struct CastlingRights {
    pub white_kingside: bool,
    pub white_queenside: bool,
    pub black_kingside: bool,
    pub black_queenside: bool,
}

impl CastlingRights {
    /// The rights at game start: all four available.
    pub fn new() -> (r: Self)
        ensures
            r.white_kingside,
            r.white_queenside,
            r.black_kingside,
            r.black_queenside,
    {
        Self {
            white_kingside: true,
            white_queenside: true,
            black_kingside: true,
            black_queenside: true,
        }
    }
}

/// A board coordinate. `row` 0 is rank 8 and `row` 7 is rank 1; `col` 0 is
/// file a and `col` 7 is file h.
#[derive(Debug, Clone, Copy, PartialEq, Eq, Structural)]
pub struct Position {
    pub row: usize,
    pub col: usize,
}

impl Position {
    /// Whether the coordinate lies on the 8x8 board.
    pub open spec fn valid(self) -> bool {
        self.row < 8 && self.col < 8
    }

    /// A position from raw coordinates; `None` when either is off the board.
    pub fn new(row: usize, col: usize) -> (r: Option<Self>)
        ensures
            r matches Some(p) <==> row < 8 && col < 8,
            r matches Some(p) ==> p == (Position { row, col }),
    {
        if row < 8 && col < 8 {
            Some(Self { row, col })
        } else {
            None
        }
    }
}

/// A proposed move: source and destination squares, and for a pawn reaching
/// the far rank the piece chosen by promotion.
#[derive(Debug, Clone, Copy)]
pub struct Move {
    pub from: Position,
    pub to: Position,
    pub promotion: Option<Piece>,
}

} // verus!
