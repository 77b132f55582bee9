//! The rules of movement, as specifications: which moves are pattern-legal
//! for each piece, how applying a move transforms the board model, and which
//! moves are fully legal (pattern-legal and leaving the mover's king safe).

use vstd::prelude::*;
use crate::model::{attacked, in_check, on_board, Model};
use crate::piece::{
    color_of, opposite_color, CastlingRights, Color, Move, Piece, Position,
};

verus! {

/// The rank a pawn of `c` starts on (as a row index).
pub open spec fn pawn_home_row(c: Color) -> int {
    match c {
        Color::White => 6,
        Color::Black => 1,
    }
}

/// The row a pawn of `c` promotes on.
pub open spec fn promotion_row(c: Color) -> int {
    match c {
        Color::White => 0,
        Color::Black => 7,
    }
}

/// The direction a pawn of `c` advances in: White toward row 0.
pub open spec fn pawn_dir(c: Color) -> int {
    match c {
        Color::White => -1,
        Color::Black => 1,
    }
}

/// The back rank of `c` (the row its king and rooks start on).
pub open spec fn back_rank(c: Color) -> int {
    match c {
        Color::White => 7,
        Color::Black => 0,
    }
}

/// A piece of `col` may land on `(r, c)`: on the board, and not occupied by
/// a piece of its own color.
pub open spec fn can_move_to(m: Model, r: int, c: int, col: Color) -> bool {
    on_board(r, c) && match m.at(r, c) {
        Some(p) => color_of(p) != col,
        None => true,
    }
}

/// A piece of `col` may capture on `(r, c)`: on the board and occupied by
/// the opposite color.
pub open spec fn can_capture(m: Model, r: int, c: int, col: Color) -> bool {
    on_board(r, c) && match m.at(r, c) {
        Some(p) => color_of(p) != col,
        None => false,
    }
}

/// The pieces a pawn of `col` may promote to.
pub open spec fn is_promotion_choice(col: Color, p: Piece) -> bool {
    ||| p == Piece::Queen(col)
    ||| p == Piece::Rook(col)
    ||| p == Piece::Bishop(col)
    ||| p == Piece::Knight(col)
}

/// The promotion field a pawn move must carry: one of the four choices when
/// the destination is the promotion row, nothing otherwise.
pub open spec fn pawn_promotion_ok(col: Color, to_row: int, promo: Option<Piece>) -> bool {
    if to_row == promotion_row(col) {
        promo matches Some(p) && is_promotion_choice(col, p)
    } else {
        promo is None
    }
}

/// Pattern-legality of a pawn move: single push onto an empty square,
/// double push from the home rank across empty squares, diagonal capture,
/// or en-passant capture onto the current target with a genuine opposing
/// pawn behind it.
pub open spec fn pawn_pattern(m: Model, col: Color, mv: Move) -> bool {
    let fr = mv.from.row as int;
    let fc = mv.from.col as int;
    let tr = mv.to.row as int;
    let tc = mv.to.col as int;
    let d = pawn_dir(col);
    ||| (on_board(tr, tc) && tr == fr + d && tc == fc && m.at(tr, tc) is None
        && pawn_promotion_ok(col, tr, mv.promotion))
    ||| (fr == pawn_home_row(col) && tr == fr + 2 * d && tc == fc && on_board(fr + d, fc)
        && m.at(fr + d, fc) is None && on_board(tr, tc) && m.at(tr, tc) is None
        && mv.promotion is None)
    ||| (tr == fr + d && (tc == fc - 1 || tc == fc + 1) && can_capture(m, tr, tc, col)
        && pawn_promotion_ok(col, tr, mv.promotion))
    ||| (m.ep matches Some(e) && tr == e.row && tc == e.col && tr == fr + d
        && (tc == fc - 1 || tc == fc + 1) && on_board(tr, tc)
        && m.at(tr - d, tc) == Some(Piece::Pawn(opposite_color(col)))
        && mv.promotion is None)
}

/// A plain move (no promotion) from `from` to the square `(r, c)`.
pub open spec fn simple_move(from: Position, r: int, c: int) -> Move {
    Move { from, to: Position { row: r as usize, col: c as usize }, promotion: None }
}

/// Pattern-legality of a knight move: one of the eight offsets, onto a
/// square not held by its own color.
pub open spec fn knight_pattern(m: Model, col: Color, mv: Move) -> bool {
    let fr = mv.from.row as int;
    let fc = mv.from.col as int;
    let tr = mv.to.row as int;
    let tc = mv.to.col as int;
    &&& mv.promotion is None
    &&& can_move_to(m, tr, tc, col)
    &&& {
        ||| (tr == fr - 2 && tc == fc - 1)
        ||| (tr == fr - 2 && tc == fc + 1)
        ||| (tr == fr - 1 && tc == fc - 2)
        ||| (tr == fr - 1 && tc == fc + 2)
        ||| (tr == fr + 1 && tc == fc - 2)
        ||| (tr == fr + 1 && tc == fc + 2)
        ||| (tr == fr + 2 && tc == fc - 1)
        ||| (tr == fr + 2 && tc == fc + 1)
    }
}

/// Walking from `(r, c)` in direction `(dr, dc)` for at most `steps` steps,
/// the square `(tr, tc)` is reached with every strictly intermediate square
/// empty.
pub open spec fn ray_reaches(
    m: Model,
    r: int,
    c: int,
    dr: int,
    dc: int,
    tr: int,
    tc: int,
    steps: nat,
) -> bool
    decreases steps,
{
    if steps == 0 {
        false
    } else {
        let nr = r + dr;
        let nc = c + dc;
        on_board(nr, nc) && if nr == tr && nc == tc {
            true
        } else {
            m.at(nr, nc) is None && ray_reaches(m, nr, nc, dr, dc, tr, tc, (steps - 1) as nat)
        }
    }
}

/// Pattern-legality of a bishop move: a clear diagonal ray to a square not
/// held by its own color.
pub open spec fn bishop_pattern(m: Model, col: Color, mv: Move) -> bool {
    let fr = mv.from.row as int;
    let fc = mv.from.col as int;
    let tr = mv.to.row as int;
    let tc = mv.to.col as int;
    &&& mv.promotion is None
    &&& can_move_to(m, tr, tc, col)
    &&& {
        ||| ray_reaches(m, fr, fc, -1, -1, tr, tc, 7)
        ||| ray_reaches(m, fr, fc, -1, 1, tr, tc, 7)
        ||| ray_reaches(m, fr, fc, 1, -1, tr, tc, 7)
        ||| ray_reaches(m, fr, fc, 1, 1, tr, tc, 7)
    }
}

/// Pattern-legality of a rook move: a clear orthogonal ray to a square not
/// held by its own color.
pub open spec fn rook_pattern(m: Model, col: Color, mv: Move) -> bool {
    let fr = mv.from.row as int;
    let fc = mv.from.col as int;
    let tr = mv.to.row as int;
    let tc = mv.to.col as int;
    &&& mv.promotion is None
    &&& can_move_to(m, tr, tc, col)
    &&& {
        ||| ray_reaches(m, fr, fc, -1, 0, tr, tc, 7)
        ||| ray_reaches(m, fr, fc, 1, 0, tr, tc, 7)
        ||| ray_reaches(m, fr, fc, 0, -1, tr, tc, 7)
        ||| ray_reaches(m, fr, fc, 0, 1, tr, tc, 7)
    }
}

/// Pattern-legality of a queen move: a clear ray, orthogonal or diagonal.
pub open spec fn queen_pattern(m: Model, col: Color, mv: Move) -> bool {
    bishop_pattern(m, col, mv) || rook_pattern(m, col, mv)
}

/// Pattern-legality of a single-step king move.
pub open spec fn king_step_pattern(m: Model, col: Color, mv: Move) -> bool {
    let fr = mv.from.row as int;
    let fc = mv.from.col as int;
    let tr = mv.to.row as int;
    let tc = mv.to.col as int;
    &&& mv.promotion is None
    &&& can_move_to(m, tr, tc, col)
    &&& fr - 1 <= tr <= fr + 1
    &&& fc - 1 <= tc <= fc + 1
    &&& (tr != fr || tc != fc)
}

/// The kingside castling right of `col`.
pub open spec fn kingside_right(r: CastlingRights, col: Color) -> bool {
    match col {
        Color::White => r.white_kingside,
        Color::Black => r.black_kingside,
    }
}

/// The queenside castling right of `col`.
pub open spec fn queenside_right(r: CastlingRights, col: Color) -> bool {
    match col {
        Color::White => r.white_queenside,
        Color::Black => r.black_queenside,
    }
}

/// Pattern-legality of castling: the king moves two columns from its origin
/// along the back rank; the right must still hold, the squares strictly
/// between king and rook must be empty, and none of the origin, transit and
/// destination squares may be attacked by the opponent.
pub open spec fn castle_pattern(m: Model, col: Color, mv: Move) -> bool {
    let b = back_rank(col);
    let opp = opposite_color(col);
    &&& mv.promotion is None
    &&& mv.from.row == b && mv.from.col == 4
    &&& mv.to.row == b
    &&& !attacked(m, b, 4, opp)
    &&& {
        ||| (mv.to.col == 6 && kingside_right(m.rights, col) && m.at(b, 5) is None
            && m.at(b, 6) is None && !attacked(m, b, 5, opp) && !attacked(m, b, 6, opp))
        ||| (mv.to.col == 2 && queenside_right(m.rights, col) && m.at(b, 1) is None
            && m.at(b, 2) is None && m.at(b, 3) is None && !attacked(m, b, 2, opp)
            && !attacked(m, b, 3, opp))
    }
}

/// Pattern-legality of a move of piece `p` (its movement rule, before the
/// king-safety filter).
pub open spec fn piece_pattern(m: Model, p: Piece, mv: Move) -> bool {
    match p {
        Piece::Pawn(col) => pawn_pattern(m, col, mv),
        Piece::Knight(col) => knight_pattern(m, col, mv),
        Piece::Bishop(col) => bishop_pattern(m, col, mv),
        Piece::Rook(col) => rook_pattern(m, col, mv),
        Piece::Queen(col) => queen_pattern(m, col, mv),
        Piece::King(col) => king_step_pattern(m, col, mv) || castle_pattern(m, col, mv),
    }
}

/// A pattern-legal move: the source holds a piece of the side to move and
/// the move follows that piece's movement rule.
pub open spec fn pattern_legal(m: Model, mv: Move) -> bool {
    &&& mv.from.valid()
    &&& mv.to.valid()
    &&& m.at(mv.from.row as int, mv.from.col as int) matches Some(p) && color_of(p) == m.turn
        && piece_pattern(m, p, mv)
}

/// The castling rights after `p` moves from `mv.from`: a king leaving its
/// origin clears both of its color's rights; a rook leaving its original
/// corner clears that side's right; nothing else changes them, and none is
/// ever set back.
pub open spec fn rights_after(m: Model, p: Piece, mv: Move) -> CastlingRights {
    let fr = mv.from.row as int;
    let fc = mv.from.col as int;
    match p {
        Piece::King(col) => if fr == back_rank(col) && fc == 4 {
            match col {
                Color::White => CastlingRights {
                    white_kingside: false,
                    white_queenside: false,
                    ..m.rights
                },
                Color::Black => CastlingRights {
                    black_kingside: false,
                    black_queenside: false,
                    ..m.rights
                },
            }
        } else {
            m.rights
        },
        Piece::Rook(col) => if fr == back_rank(col) && fc == 0 {
            match col {
                Color::White => CastlingRights { white_queenside: false, ..m.rights },
                Color::Black => CastlingRights { black_queenside: false, ..m.rights },
            }
        } else if fr == back_rank(col) && fc == 7 {
            match col {
                Color::White => CastlingRights { white_kingside: false, ..m.rights },
                Color::Black => CastlingRights { black_kingside: false, ..m.rights },
            }
        } else {
            m.rights
        },
        _ => m.rights,
    }
}

/// The squares after applying `mv`, moving piece `p`: the source empties;
/// a castling king drags the corner content to the rook's new square; an
/// en-passant capture removes the pawn behind the target; the destination
/// receives the piece, or the promotion choice for a pawn that carries one.
pub open spec fn squares_after(m: Model, p: Piece, mv: Move) -> Seq<Option<Piece>> {
    let fr = mv.from.row as int;
    let fc = mv.from.col as int;
    let tr = mv.to.row as int;
    let tc = mv.to.col as int;
    let s1 = m.squares.update(fr * 8 + fc, None);
    let s2 = if p matches Piece::King(_) && (fc == tc + 2 || tc == fc + 2) {
        if tc == 6 {
            s1.update(fr * 8 + 5, s1[fr * 8 + 7]).update(fr * 8 + 7, None)
        } else if tc == 2 {
            s1.update(fr * 8 + 3, s1[fr * 8 + 0]).update(fr * 8 + 0, None)
        } else {
            s1
        }
    } else {
        s1
    };
    let s3 = if p matches Piece::Pawn(_) && m.ep matches Some(e) && tr == e.row && tc == e.col {
        s2.update(fr * 8 + tc, None)
    } else {
        s2
    };
    let placed = match (p, mv.promotion) {
        (Piece::Pawn(_), Some(pp)) => Some(pp),
        _ => Some(p),
    };
    s3.update(tr * 8 + tc, placed)
}

/// The en-passant target after applying `mv`, moving piece `p`: the
/// intermediate square after a two-square pawn advance, nothing after any
/// other move.
pub open spec fn ep_after(p: Piece, mv: Move) -> Option<Position> {
    let fr = mv.from.row as int;
    let tr = mv.to.row as int;
    if p matches Piece::Pawn(_) && (fr == tr + 2 || tr == fr + 2) {
        Some(Position { row: ((fr + tr) / 2) as usize, col: mv.from.col })
    } else {
        None
    }
}

/// Whether `mv` moves a pawn two rows (the advance that opens an
/// en-passant window).
pub open spec fn is_two_square_pawn_advance(m: Model, mv: Move) -> bool {
    (m.at(mv.from.row as int, mv.from.col as int) matches Some(Piece::Pawn(_))) && (
    mv.from.row as int == mv.to.row as int + 2 || mv.to.row as int == mv.from.row as int + 2)
}

/// The unchecked mutation: the full state after applying `mv` to `m`. When
/// the source square is empty the state is unchanged. The move log is not
/// part of this transition.
pub open spec fn apply_move(m: Model, mv: Move) -> Model {
    match m.at(mv.from.row as int, mv.from.col as int) {
        None => m,
        Some(p) => Model {
            squares: squares_after(m, p, mv),
            turn: opposite_color(m.turn),
            rights: rights_after(m, p, mv),
            ep: ep_after(p, mv),
            history: m.history,
        },
    }
}

/// A legal move: pattern-legal, and applying it leaves the mover's own king
/// not attacked.
pub open spec fn legal(m: Model, mv: Move) -> bool {
    pattern_legal(m, mv) && !in_check(apply_move(m, mv), m.turn)
}

/// A side has some legal move somewhere on the board.
pub open spec fn has_legal_move(m: Model) -> bool {
    exists|mv: Move| #[trigger] legal(m, mv)
}

/// Some legal move leads from `from` to `to` (whatever its promotion
/// field). This is the test `make_move` applies to a submission.
pub open spec fn legal_from_to(m: Model, from: Position, to: Position) -> bool {
    exists|lm: Move| #[trigger] legal(m, lm) && lm.from == from && lm.to == to
}

/// Checkmate: the side to move is in check and has no legal move.
pub open spec fn checkmate(m: Model) -> bool {
    in_check(m, m.turn) && !has_legal_move(m)
}

/// Stalemate: the side to move is not in check and has no legal move.
pub open spec fn stalemate(m: Model) -> bool {
    !in_check(m, m.turn) && !has_legal_move(m)
}

} // verus!
