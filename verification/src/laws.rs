//! The engine's guarantees that relate several functions, stated and proved
//! once for all boards, sides and moves.

use vstd::prelude::*;
use crate::geometry::{Move, spec_in_bounds};
use crate::piece::{Piece, PieceKind, Side};
use crate::board::{board_wf, cell_of, after_move, path_len, path_cell, lemma_after_move_cells};
use crate::shape::{shape_ok, forward_of};
use crate::validator::spec_validate;
use crate::error::{MoveError, LegalMove};

verus! {

/// A move the validator accepts has both coordinates on the board and a
/// destination different from its source, whatever the piece and position.
pub proof fn lemma_validate_ok_in_bounds(s: Seq<Option<Piece>>, mover: Side, m: Move)
    requires
        spec_validate(s, mover, m) is Ok,
    ensures
        spec_in_bounds(m.source),
        spec_in_bounds(m.dest),
        m.source != m.dest,
{
    assert(cell_of(s, m.source.x as int, m.source.y as int) is Some);
    if !spec_in_bounds(m.source) {
        assert(cell_of(s, m.source.x as int, m.source.y as int) is None);
    }
}

/// Validation is a pure query: the verdict is a function of the board, the
/// mover and the move alone, so validating the same state and move again
/// yields the same result, acceptance and rejection alike.
pub proof fn lemma_validate_deterministic(
    s: Seq<Option<Piece>>,
    mover: Side,
    m: Move,
    r1: Result<LegalMove, MoveError>,
    r2: Result<LegalMove, MoveError>,
)
    requires
        r1 == spec_validate(s, mover, m),
        r2 == spec_validate(s, mover, m),
    ensures
        r1 == r2,
{
}

/// A pawn may advance two squares only while it has never moved: an unmoved
/// pawn's two-square advance is shape-legal exactly when both squares ahead
/// are empty, and the same advance by a pawn that has moved is rejected with
/// `ShapeInvalid`.
pub proof fn lemma_pawn_double_step(s: Seq<Option<Piece>>, side: Side, m: Move)
    requires
        spec_in_bounds(m.source),
        spec_in_bounds(m.dest),
        cell_of(s, m.source.x as int, m.source.y as int) matches Some(p)
            && p.kind == PieceKind::Pawn && p.side == side,
        m.dest.y == m.source.y,
        m.dest.x as int - m.source.x as int == 2 * forward_of(side),
    ensures
        cell_of(s, m.source.x as int, m.source.y as int)->Some_0.has_moved
            ==> spec_validate(s, side, m) == Err::<LegalMove, MoveError>(MoveError::ShapeInvalid),
        !cell_of(s, m.source.x as int, m.source.y as int)->Some_0.has_moved
            ==> (shape_ok(s, cell_of(s, m.source.x as int, m.source.y as int)->Some_0,
                    m.source.x as int, m.source.y as int, m.dest.x as int, m.dest.y as int)
                <==> (cell_of(s, m.source.x as int + forward_of(side), m.source.y as int) is None
                    && cell_of(s, m.dest.x as int, m.dest.y as int) is None)),
{
}

/// A successful move marks the mover: the piece standing on the destination
/// afterwards has `has_moved` set.
pub proof fn lemma_moved_piece_has_moved(s: Seq<Option<Piece>>, m: Move)
    requires
        board_wf(s),
        spec_in_bounds(m.source),
        spec_in_bounds(m.dest),
        cell_of(s, m.source.x as int, m.source.y as int) is Some,
    ensures
        cell_of(after_move(s, m), m.dest.x as int, m.dest.y as int) matches Some(p) && p.has_moved,
{
    lemma_after_move_cells(s, m, m.dest.x as int, m.dest.y as int);
}

/// A rook, bishop or queen move across an occupied intervening square is
/// rejected with `ShapeInvalid`, whatever side the occupant belongs to:
/// `j` names the blocked step strictly between source and destination.
pub proof fn lemma_slider_blocked(s: Seq<Option<Piece>>, side: Side, m: Move, j: int)
    requires
        spec_in_bounds(m.dest),
        cell_of(s, m.source.x as int, m.source.y as int) matches Some(p) && p.side == side
            && (p.kind == PieceKind::Rook || p.kind == PieceKind::Bishop || p.kind == PieceKind::Queen),
        1 <= j < path_len(m.source.x as int, m.source.y as int, m.dest.x as int, m.dest.y as int),
        path_cell(s, m.source.x as int, m.source.y as int, m.dest.x as int, m.dest.y as int, j) is Some,
    ensures
        spec_validate(s, side, m) == Err::<LegalMove, MoveError>(MoveError::ShapeInvalid),
{
    let sx = m.source.x as int;
    let sy = m.source.y as int;
    let tx = m.dest.x as int;
    let ty = m.dest.y as int;
    assert(path_len(sx, sy, tx, ty) >= 2);
    assert(!(sx == tx && sy == ty));
    assert(!shape_ok(s, cell_of(s, sx, sy)->Some_0, sx, sy, tx, ty));
}

/// A knight jumps: its shape rule reads no cell at all, so boards that
/// differ in any occupants, between source and destination or anywhere else,
/// give a knight move the same shape verdict.
pub proof fn lemma_knight_ignores_occupants(
    s1: Seq<Option<Piece>>,
    s2: Seq<Option<Piece>>,
    p: Piece,
    sx: int,
    sy: int,
    tx: int,
    ty: int,
)
    requires
        p.kind == PieceKind::Knight,
    ensures
        shape_ok(s1, p, sx, sy, tx, ty) == shape_ok(s2, p, sx, sy, tx, ty),
{
}

} // verus!
