//! The per-kind movement rules: for each piece kind, whether a move's
//! geometry matches the kind's pattern, including the path-obstruction check
//! for the sliding kinds and the capture rules of the pawn.

use vstd::prelude::*;
use crate::geometry::{Move, abs_int};
use crate::piece::{Piece, PieceKind, Side, spec_opposite};
use crate::board::{Board, cell_of, spec_path_clear};

verus! {

/// The rank direction a side's pawns advance in: +1 for the first side,
/// -1 for the second.
pub open spec fn forward_of(side: Side) -> int {
    match side {
        Side::First => 1,
        Side::Second => -1,
    }
}

/// Pawn rule: one square straight ahead onto an empty cell; two squares from
/// an unmoved pawn with both cells ahead empty; one square diagonally ahead
/// only as a capture of an opposing piece.
pub open spec fn pawn_ok(s: Seq<Option<Piece>>, side: Side, has_moved: bool, sx: int, sy: int, tx: int, ty: int) -> bool {
    let dx = tx - sx;
    let dy = ty - sy;
    let f = forward_of(side);
    ||| (dy == 0 && dx == f && cell_of(s, tx, ty) is None)
    ||| (dy == 0 && dx == 2 * f && !has_moved
        && cell_of(s, sx + f, sy) is None && cell_of(s, tx, ty) is None)
    ||| (abs_int(dy) == 1 && dx == f
        && (cell_of(s, tx, ty) matches Some(q) && q.side == spec_opposite(side)))
}

/// A nonzero move along a rank or a file.
pub open spec fn rook_line(dx: int, dy: int) -> bool {
    (dx == 0) != (dy == 0)
}

/// A nonzero move along a diagonal.
pub open spec fn bishop_line(dx: int, dy: int) -> bool {
    dx != 0 && abs_int(dx) == abs_int(dy)
}

/// Rook rule: a straight line with an empty path.
pub open spec fn rook_ok(s: Seq<Option<Piece>>, sx: int, sy: int, tx: int, ty: int) -> bool {
    rook_line(tx - sx, ty - sy) && spec_path_clear(s, sx, sy, tx, ty)
}

/// Bishop rule: a diagonal with an empty path.
pub open spec fn bishop_ok(s: Seq<Option<Piece>>, sx: int, sy: int, tx: int, ty: int) -> bool {
    bishop_line(tx - sx, ty - sy) && spec_path_clear(s, sx, sy, tx, ty)
}

/// Queen rule: a rook line or a bishop line, with an empty path.
pub open spec fn queen_ok(s: Seq<Option<Piece>>, sx: int, sy: int, tx: int, ty: int) -> bool {
    (rook_line(tx - sx, ty - sy) || bishop_line(tx - sx, ty - sy))
        && spec_path_clear(s, sx, sy, tx, ty)
}

/// Knight rule: the absolute deltas are a permutation of (1, 2); knights
/// jump, so the board's contents play no part.
pub open spec fn knight_ok(dx: int, dy: int) -> bool {
    ||| (abs_int(dx) == 1 && abs_int(dy) == 2)
    ||| (abs_int(dx) == 2 && abs_int(dy) == 1)
}

/// King rule: one square in any direction, excluding the zero move.
pub open spec fn king_ok(dx: int, dy: int) -> bool {
    !(dx == 0 && dy == 0) && -1 <= dx <= 1 && -1 <= dy <= 1
}

/// Shape legality of a move for `p`: its kind's movement pattern accepts the
/// geometry, the path is clear where the kind slides, and pawn captures obey
/// the pawn's occupancy rules. Bounds and friendly occupancy of the
/// destination are the validator's separate concern.
pub open spec fn shape_ok(s: Seq<Option<Piece>>, p: Piece, sx: int, sy: int, tx: int, ty: int) -> bool {
    match p.kind {
        PieceKind::Pawn => pawn_ok(s, p.side, p.has_moved, sx, sy, tx, ty),
        PieceKind::Knight => knight_ok(tx - sx, ty - sy),
        PieceKind::Bishop => bishop_ok(s, sx, sy, tx, ty),
        PieceKind::Rook => rook_ok(s, sx, sy, tx, ty),
        PieceKind::Queen => queen_ok(s, sx, sy, tx, ty),
        PieceKind::King => king_ok(tx - sx, ty - sy),
    }
}

/// Decides shape legality of `m` for `piece` on `board`.
pub fn shape_legal(board: &Board, piece: Piece, m: Move) -> (r: bool)
    requires
        board.wf(),
    ensures
        r == shape_ok(board@, piece, m.source.x as int, m.source.y as int, m.dest.x as int, m.dest.y as int),
{
    let sx: i32 = m.source.x as i32;
    let sy: i32 = m.source.y as i32;
    let tx: i32 = m.dest.x as i32;
    let ty: i32 = m.dest.y as i32;
    let dx: i32 = tx - sx;
    let dy: i32 = ty - sy;
    match piece.kind {
        PieceKind::Pawn => {
            let f: i32 = if matches!(piece.side, Side::First) { 1 } else { -1 };
            if dy == 0 && dx == f {
                board.cell_at(tx, ty).is_none()
            } else if dy == 0 && dx == 2 * f && !piece.has_moved {
                board.cell_at(sx + f, sy).is_none() && board.cell_at(tx, ty).is_none()
            } else if (dy == 1 || dy == -1) && dx == f {
                match board.cell_at(tx, ty) {
                    Some(q) => q.side == piece.side.opposite(),
                    None => false,
                }
            } else {
                false
            }
        },
        PieceKind::Knight => {
            let adx: i32 = if dx < 0 { -dx } else { dx };
            let ady: i32 = if dy < 0 { -dy } else { dy };
            (adx == 1 && ady == 2) || (adx == 2 && ady == 1)
        },
        PieceKind::Bishop => {
            let adx: i32 = if dx < 0 { -dx } else { dx };
            let ady: i32 = if dy < 0 { -dy } else { dy };
            dx != 0 && adx == ady && board.is_path_clear(m.source, m.dest)
        },
        PieceKind::Rook => {
            ((dx == 0) != (dy == 0)) && board.is_path_clear(m.source, m.dest)
        },
        PieceKind::Queen => {
            let adx: i32 = if dx < 0 { -dx } else { dx };
            let ady: i32 = if dy < 0 { -dy } else { dy };
            (((dx == 0) != (dy == 0)) || (dx != 0 && adx == ady))
                && board.is_path_clear(m.source, m.dest)
        },
        PieceKind::King => {
            !(dx == 0 && dy == 0) && -1 <= dx && dx <= 1 && -1 <= dy && dy <= 1
        },
    }
}

} // verus!
