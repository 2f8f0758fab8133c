//! The move validator: attack detection, check detection, and the single
//! legality check that every move goes through. Validation is a pure query:
//! it never mutates the board it is given.

use vstd::prelude::*;
use crate::geometry::{Coordinate, Move, in_bounds_xy, spec_in_bounds, in_bounds};
use crate::piece::{Piece, PieceKind, Side, spec_opposite};
use crate::board::{Board, cell_of, after_move};
use crate::shape::{shape_ok, shape_legal};
use crate::error::{MoveError, LegalMove};

verus! {

/// Whether some piece of `by` reaches cell (tx, ty) under its shape-and-path
/// rules. This ignores king safety of the attacker on purpose: it is the
/// "attacked square" notion that king safety itself is defined against.
pub open spec fn spec_attacked(s: Seq<Option<Piece>>, by: Side, tx: int, ty: int) -> bool {
    exists |x: int, y: int| in_bounds_xy(x, y)
        && (#[trigger] cell_of(s, x, y) matches Some(p)
            && p.side == by && shape_ok(s, p, x, y, tx, ty))
}

/// Whether a king of `side` stands on a square attacked by the other side.
pub open spec fn spec_in_check(s: Seq<Option<Piece>>, side: Side) -> bool {
    exists |x: int, y: int| in_bounds_xy(x, y)
        && (#[trigger] cell_of(s, x, y) matches Some(p)
            && p.kind == PieceKind::King && p.side == side
            && spec_attacked(s, spec_opposite(side), x, y))
}

/// The verdict on a candidate move of `mover` on board `s`, checked in this
/// order, short-circuiting on the first failure: the source must hold a
/// piece of the mover; the destination must be on the board; source and
/// destination must differ; the piece kind's shape-and-path rule must accept
/// the move; the destination must not hold the mover's own piece; and the
/// move must not leave the mover's own king on an attacked square. On
/// success the verdict reports whether the move captures and what kind.
pub open spec fn spec_validate(s: Seq<Option<Piece>>, mover: Side, m: Move) -> Result<LegalMove, MoveError> {
    let sx = m.source.x as int;
    let sy = m.source.y as int;
    let tx = m.dest.x as int;
    let ty = m.dest.y as int;
    if !(cell_of(s, sx, sy) matches Some(p) && p.side == mover) {
        Err(MoveError::NoPieceOrWrongSide)
    } else if !spec_in_bounds(m.dest) {
        Err(MoveError::OutOfBounds)
    } else if sx == tx && sy == ty {
        Err(MoveError::NullMove)
    } else if !shape_ok(s, cell_of(s, sx, sy)->Some_0, sx, sy, tx, ty) {
        Err(MoveError::ShapeInvalid)
    } else if cell_of(s, tx, ty) matches Some(q) && q.side == mover {
        Err(MoveError::FriendlyFire)
    } else if spec_in_check(after_move(s, m), mover) {
        Err(MoveError::LeavesKingInCheck)
    } else {
        Ok(LegalMove {
            is_capture: cell_of(s, tx, ty) is Some,
            captured_kind: match cell_of(s, tx, ty) {
                Some(q) => Some(q.kind),
                None => None,
            },
        })
    }
}

/// Whether the validator accepts the move.
pub open spec fn move_ok(s: Seq<Option<Piece>>, mover: Side, m: Move) -> bool {
    spec_validate(s, mover, m) is Ok
}

/// Decides whether some piece of `by` reaches `target` under shape-and-path
/// rules.
pub fn attacked(board: &Board, by: Side, target: Coordinate) -> (r: bool)
    requires
        board.wf(),
    ensures
        r == spec_attacked(board@, by, target.x as int, target.y as int),
{
    let mut x: i8 = 0;
    while x < 8
        invariant
            board.wf(),
            0 <= x <= 8,
            forall |u: int, v: int| 0 <= u < x && 0 <= v < 8
                ==> !(#[trigger] cell_of(board@, u, v) matches Some(p)
                    && p.side == by
                    && shape_ok(board@, p, u, v, target.x as int, target.y as int)),
        decreases 8 - x,
    {
        let mut y: i8 = 0;
        while y < 8
            invariant
                board.wf(),
                0 <= x < 8,
                0 <= y <= 8,
                forall |u: int, v: int| 0 <= u < x && 0 <= v < 8
                    ==> !(#[trigger] cell_of(board@, u, v) matches Some(p)
                        && p.side == by
                        && shape_ok(board@, p, u, v, target.x as int, target.y as int)),
                forall |v: int| 0 <= v < y
                    ==> !(#[trigger] cell_of(board@, x as int, v) matches Some(p)
                        && p.side == by
                        && shape_ok(board@, p, x as int, v, target.x as int, target.y as int)),
            decreases 8 - y,
        {
            match board.cell_at(x as i32, y as i32) {
                Some(p) => {
                    if p.side == by {
                        let from = Coordinate { x, y };
                        if shape_legal(board, p, Move { source: from, dest: target }) {
                            return true;
                        }
                    }
                },
                None => {},
            }
            y = y + 1;
        }
        x = x + 1;
    }
    false
}

/// Decides whether a king of `side` stands on a square attacked by the
/// other side.
pub fn in_check(board: &Board, side: Side) -> (r: bool)
    requires
        board.wf(),
    ensures
        r == spec_in_check(board@, side),
{
    let mut x: i8 = 0;
    while x < 8
        invariant
            board.wf(),
            0 <= x <= 8,
            forall |u: int, v: int| 0 <= u < x && 0 <= v < 8
                ==> !(#[trigger] cell_of(board@, u, v) matches Some(p)
                    && p.kind == PieceKind::King && p.side == side
                    && spec_attacked(board@, spec_opposite(side), u, v)),
        decreases 8 - x,
    {
        let mut y: i8 = 0;
        while y < 8
            invariant
                board.wf(),
                0 <= x < 8,
                0 <= y <= 8,
                forall |u: int, v: int| 0 <= u < x && 0 <= v < 8
                    ==> !(#[trigger] cell_of(board@, u, v) matches Some(p)
                        && p.kind == PieceKind::King && p.side == side
                        && spec_attacked(board@, spec_opposite(side), u, v)),
                forall |v: int| 0 <= v < y
                    ==> !(#[trigger] cell_of(board@, x as int, v) matches Some(p)
                        && p.kind == PieceKind::King && p.side == side
                        && spec_attacked(board@, spec_opposite(side), x as int, v)),
            decreases 8 - y,
        {
            match board.cell_at(x as i32, y as i32) {
                Some(p) => {
                    if matches!(p.kind, PieceKind::King) && p.side == side {
                        if attacked(board, side.opposite(), Coordinate { x, y }) {
                            return true;
                        }
                    }
                },
                None => {},
            }
            y = y + 1;
        }
        x = x + 1;
    }
    false
}

/// Decides legality of `m` for `mover` on `board` and reports either the
/// capture record of a legal move or the first reason of `spec_validate`'s
/// order that rejects it. A pure query: the board is not touched.
pub fn validate(board: &Board, mover: Side, m: Move) -> (r: Result<LegalMove, MoveError>)
    requires
        board.wf(),
    ensures
        r == spec_validate(board@, mover, m),
{
    let src_occupant = board.piece_at(m.source);
    let p = match src_occupant {
        Some(p) => {
            if p.side == mover {
                p
            } else {
                return Err(MoveError::NoPieceOrWrongSide);
            }
        },
        None => {
            return Err(MoveError::NoPieceOrWrongSide);
        },
    };
    if !in_bounds(m.dest) {
        return Err(MoveError::OutOfBounds);
    }
    if m.source.x == m.dest.x && m.source.y == m.dest.y {
        return Err(MoveError::NullMove);
    }
    if !shape_legal(board, p, m) {
        return Err(MoveError::ShapeInvalid);
    }
    let dst_occupant = board.piece_at(m.dest);
    match dst_occupant {
        Some(q) => {
            if q.side == mover {
                return Err(MoveError::FriendlyFire);
            }
        },
        None => {},
    }
    let simulated = board.board_after(m);
    if in_check(&simulated, mover) {
        return Err(MoveError::LeavesKingInCheck);
    }
    Ok(LegalMove {
        is_capture: dst_occupant.is_some(),
        captured_kind: match dst_occupant {
            Some(q) => Some(q.kind),
            None => None,
        },
    })
}

} // verus!
