//! Laws of the engine, proved once and for all over the model: how the
//! en-passant window behaves, that castling rights never return, that a
//! legal king move never ends on an attacked square, and that checkmate
//! and stalemate exclude each other.

use vstd::prelude::*;
use crate::model::{attacked, in_check, Model};
use crate::piece::{opposite_color, Color, Move, Piece, Position};
use crate::rules::{
    apply_move, back_rank, castle_pattern, checkmate, has_legal_move,
    is_two_square_pawn_advance, kingside_right, legal, pattern_legal, queenside_right, stalemate,
};

verus! {

/// A two-square pawn advance sets the en-passant target to the
/// intermediate square; applying any other move clears it.
pub proof fn lemma_en_passant_window(m: Model, mv: Move)
    requires
        pattern_legal(m, mv),
    ensures
        is_two_square_pawn_advance(m, mv) ==> apply_move(m, mv).ep == Some(
            Position { row: ((mv.from.row + mv.to.row) / 2) as usize, col: mv.from.col },
        ),
        !is_two_square_pawn_advance(m, mv) ==> apply_move(m, mv).ep is None,
{
}

/// Castling rights only ever disappear: a right that does not hold before
/// a move does not hold after it, whatever the move.
pub proof fn lemma_castling_rights_monotone(m: Model, mv: Move)
    ensures
        !kingside_right(m.rights, Color::White) ==> !kingside_right(
            apply_move(m, mv).rights,
            Color::White,
        ),
        !queenside_right(m.rights, Color::White) ==> !queenside_right(
            apply_move(m, mv).rights,
            Color::White,
        ),
        !kingside_right(m.rights, Color::Black) ==> !kingside_right(
            apply_move(m, mv).rights,
            Color::Black,
        ),
        !queenside_right(m.rights, Color::Black) ==> !queenside_right(
            apply_move(m, mv).rights,
            Color::Black,
        ),
{
}

/// Executing castling clears both of the mover's castling rights.
pub proof fn lemma_castling_clears_rights(m: Model, mv: Move)
    requires
        m.wf(),
        castle_pattern(m, m.turn, mv),
        m.at(mv.from.row as int, mv.from.col as int) == Some(Piece::King(m.turn)),
    ensures
        !kingside_right(apply_move(m, mv).rights, m.turn),
        !queenside_right(apply_move(m, mv).rights, m.turn),
{
}

/// No legal king move ends with the king on an attacked square, and a
/// castling king passes through no attacked square: the origin, the
/// transit square and the destination are all safe.
pub proof fn lemma_king_safety(m: Model, mv: Move)
    requires
        m.wf(),
        legal(m, mv),
        m.at(mv.from.row as int, mv.from.col as int) == Some(Piece::King(m.turn)),
    ensures
        !attacked(
            apply_move(m, mv),
            mv.to.row as int,
            mv.to.col as int,
            opposite_color(m.turn),
        ),
        castle_pattern(m, m.turn, mv) ==> {
            let b = back_rank(m.turn);
            let opp = opposite_color(m.turn);
            &&& !attacked(m, b, 4, opp)
            &&& (mv.to.col == 6 ==> !attacked(m, b, 5, opp) && !attacked(m, b, 6, opp))
            &&& (mv.to.col == 2 ==> !attacked(m, b, 2, opp) && !attacked(m, b, 3, opp))
        },
{
    let applied = apply_move(m, mv);
    let tr = mv.to.row as int;
    let tc = mv.to.col as int;
    assert(applied.at(tr, tc) == Some(Piece::King(m.turn)));
    if attacked(applied, tr, tc, opposite_color(m.turn)) {
        assert(in_check(applied, m.turn));
    }
}

/// Checkmate and stalemate exclude each other, and neither holds while the
/// side to move still has a legal move.
pub proof fn lemma_mate_exclusive(m: Model)
    ensures
        !(checkmate(m) && stalemate(m)),
        has_legal_move(m) ==> !checkmate(m) && !stalemate(m),
{
}

/// A slider visible along a ray keeps being visible with more fuel.
proof fn lemma_ray_attacks_fuel_mono(
    m: Model,
    r: int,
    c: int,
    dr: int,
    dc: int,
    by: Color,
    f1: nat,
    f2: nat,
)
    requires
        crate::model::ray_attacks(m, r, c, dr, dc, by, f1),
        f1 <= f2,
    ensures
        crate::model::ray_attacks(m, r, c, dr, dc, by, f2),
    decreases f1,
{
    let nr = r + dr;
    let nc = c + dc;
    if m.at(nr, nc) is None {
        lemma_ray_attacks_fuel_mono(m, nr, nc, dr, dc, by, (f1 - 1) as nat, (f2 - 1) as nat);
    }
}

/// Walking a clear ray away from a slider, the slider stays visible when
/// looking back: `j` counts the steps taken so far, and the walk ends at
/// `(tr, tc)` where the slider is then seen within seven steps. The origin
/// `(fr0, fc0)` only serves to bound the walk's length by the board.
proof fn lemma_ray_back(
    m: Model,
    fr0: int,
    fc0: int,
    r: int,
    c: int,
    dr: int,
    dc: int,
    tr: int,
    tc: int,
    k: nat,
    j: nat,
    by: Color,
)
    requires
        -1 <= dr <= 1,
        -1 <= dc <= 1,
        !(dr == 0 && dc == 0),
        crate::model::on_board(fr0, fc0),
        crate::model::on_board(r, c),
        m.at(r, c) is None,
        crate::rules::ray_reaches(m, r, c, dr, dc, tr, tc, k),
        crate::model::ray_attacks(m, r, c, -dr, -dc, by, j),
        j >= 1,
        dr == 1 ==> r == fr0 + j,
        dr == -1 ==> r == fr0 - j,
        dr == 0 ==> r == fr0,
        dc == 1 ==> c == fc0 + j,
        dc == -1 ==> c == fc0 - j,
        dc == 0 ==> c == fc0,
    ensures
        crate::model::ray_attacks(m, tr, tc, -dr, -dc, by, 7),
    decreases k,
{
    let nr = r + dr;
    let nc = c + dc;
    if nr == tr && nc == tc {
        assert(crate::model::ray_attacks(m, tr, tc, -dr, -dc, by, j + 1));
        lemma_ray_attacks_fuel_mono(m, tr, tc, -dr, -dc, by, (j + 1) as nat, 7);
    } else {
        assert(crate::model::ray_attacks(m, nr, nc, -dr, -dc, by, j + 1));
        lemma_ray_back(m, fr0, fc0, nr, nc, dr, dc, tr, tc, (k - 1) as nat, j + 1, by);
    }
}

/// A slider capturing along a clear ray attacks its destination: looking
/// back from `(tr, tc)`, the first occupied square is the slider itself.
proof fn lemma_slider_capture_attacks(
    m: Model,
    fr: int,
    fc: int,
    dr: int,
    dc: int,
    tr: int,
    tc: int,
    by: Color,
)
    requires
        -1 <= dr <= 1,
        -1 <= dc <= 1,
        !(dr == 0 && dc == 0),
        crate::model::on_board(fr, fc),
        crate::rules::ray_reaches(m, fr, fc, dr, dc, tr, tc, 7),
        m.at(fr, fc) matches Some(p) && crate::model::slider_threat(p, dr, dc, by),
    ensures
        crate::model::ray_attacks(m, tr, tc, -dr, -dc, by, 7),
{
    let nr = fr + dr;
    let nc = fc + dc;
    if nr == tr && nc == tc {
        assert(crate::model::ray_attacks(m, tr, tc, -dr, -dc, by, 7));
    } else {
        assert(crate::model::ray_attacks(m, nr, nc, -dr, -dc, by, 1));
        lemma_ray_back(m, fr, fc, nr, nc, dr, dc, tr, tc, 6, 1, by);
    }
}

/// The engine never legalizes a quiet king capture: a pattern-legal move
/// onto a square holding the opposing king can only exist when that king
/// is already attacked, that is, when its side is already in check. In the
/// reachable games every such check is resolved one ply earlier, so no
/// king is ever removed from the board.
pub proof fn lemma_king_capture_needs_check(m: Model, mv: Move)
    requires
        m.wf(),
        pattern_legal(m, mv),
        m.at(mv.to.row as int, mv.to.col as int) == Some(Piece::King(opposite_color(m.turn))),
    ensures
        attacked(m, mv.to.row as int, mv.to.col as int, m.turn),
        in_check(m, opposite_color(m.turn)),
{
    let fr = mv.from.row as int;
    let fc = mv.from.col as int;
    let tr = mv.to.row as int;
    let tc = mv.to.col as int;
    let by = m.turn;
    match m.at(fr, fc) {
        None => {
            assert(false);
        },
        Some(p) => {
            match p {
                Piece::Knight(_) => {
                    assert(crate::model::knight_attacks(m, tr, tc, by));
                },
                Piece::King(_) => {
                    assert(crate::model::king_attacks(m, tr, tc, by));
                },
                Piece::Pawn(_) => {
                    assert(crate::model::pawn_attacks(m, tr, tc, by));
                },
                Piece::Bishop(_) => {
                    slider_capture_case(m, fr, fc, -1, -1, tr, tc, by, p);
                    slider_capture_case(m, fr, fc, -1, 1, tr, tc, by, p);
                    slider_capture_case(m, fr, fc, 1, -1, tr, tc, by, p);
                    slider_capture_case(m, fr, fc, 1, 1, tr, tc, by, p);
                    assert(crate::model::slider_attacks(m, tr, tc, by));
                },
                Piece::Rook(_) => {
                    slider_capture_case(m, fr, fc, -1, 0, tr, tc, by, p);
                    slider_capture_case(m, fr, fc, 1, 0, tr, tc, by, p);
                    slider_capture_case(m, fr, fc, 0, -1, tr, tc, by, p);
                    slider_capture_case(m, fr, fc, 0, 1, tr, tc, by, p);
                    assert(crate::model::slider_attacks(m, tr, tc, by));
                },
                Piece::Queen(_) => {
                    slider_capture_case(m, fr, fc, -1, -1, tr, tc, by, p);
                    slider_capture_case(m, fr, fc, -1, 1, tr, tc, by, p);
                    slider_capture_case(m, fr, fc, 1, -1, tr, tc, by, p);
                    slider_capture_case(m, fr, fc, 1, 1, tr, tc, by, p);
                    slider_capture_case(m, fr, fc, -1, 0, tr, tc, by, p);
                    slider_capture_case(m, fr, fc, 1, 0, tr, tc, by, p);
                    slider_capture_case(m, fr, fc, 0, -1, tr, tc, by, p);
                    slider_capture_case(m, fr, fc, 0, 1, tr, tc, by, p);
                    assert(crate::model::slider_attacks(m, tr, tc, by));
                },
            }
        },
    }
    assert(in_check(m, opposite_color(m.turn)));
}

/// One direction of the slider case: when the capture runs along this ray,
/// the backward ray carries the attack.
proof fn slider_capture_case(
    m: Model,
    fr: int,
    fc: int,
    dr: int,
    dc: int,
    tr: int,
    tc: int,
    by: Color,
    p: Piece,
)
    requires
        -1 <= dr <= 1,
        -1 <= dc <= 1,
        !(dr == 0 && dc == 0),
        crate::model::on_board(fr, fc),
        m.at(fr, fc) == Some(p),
        crate::model::slider_threat(p, dr, dc, by),
    ensures
        crate::rules::ray_reaches(m, fr, fc, dr, dc, tr, tc, 7) ==> crate::model::ray_attacks(
            m,
            tr,
            tc,
            -dr,
            -dc,
            by,
            7,
        ),
{
    if crate::rules::ray_reaches(m, fr, fc, dr, dc, tr, tc, 7) {
        lemma_slider_capture_attacks(m, fr, fc, dr, dc, tr, tc, by);
    }
}

} // verus!
