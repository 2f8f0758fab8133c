//! The board: a square grid of optional occupants indexed by `Coordinate`,
//! with lookup, placement, removal, straight-line path queries, and king
//! lookup.
//!
//! The mathematical model of a board is a `Seq<Option<Piece>>` of length 64;
//! cell (x, y) lives at index `x * 8 + y`.

use vstd::prelude::*;
use crate::geometry::{Coordinate, Move, in_bounds_xy, spec_in_bounds, abs_int, sign_int, in_bounds};
use crate::piece::{Piece, PieceKind, Side};
use crate::error::MoveError;

verus! {

/// The grid of cells. The single owner of every cell: all mutation goes
/// through its methods.
pub struct Board {
    cells: Vec<Option<Piece>>,
}

impl View for Board {
    type V = Seq<Option<Piece>>;

    closed spec fn view(&self) -> Seq<Option<Piece>> {
        self.cells@
    }
}

/// A well-formed board model holds exactly 64 cells.
pub open spec fn board_wf(s: Seq<Option<Piece>>) -> bool {
    s.len() == 64
}

/// The occupant of cell (x, y); off-board coordinates hold nothing.
pub open spec fn cell_of(s: Seq<Option<Piece>>, x: int, y: int) -> Option<Piece> {
    if in_bounds_xy(x, y) {
        s[x * 8 + y]
    } else {
        None
    }
}

/// The number of unit steps from (sx, sy) to (tx, ty) along the walk
/// direction: the larger of the two absolute deltas.
pub open spec fn path_len(sx: int, sy: int, tx: int, ty: int) -> int {
    if abs_int(tx - sx) >= abs_int(ty - sy) {
        abs_int(tx - sx)
    } else {
        abs_int(ty - sy)
    }
}

/// The cell reached after `i` unit steps from (sx, sy) towards (tx, ty).
pub open spec fn path_cell(s: Seq<Option<Piece>>, sx: int, sy: int, tx: int, ty: int, i: int) -> Option<Piece> {
    cell_of(s, sx + i * sign_int(tx - sx), sy + i * sign_int(ty - sy))
}

/// Whether every cell strictly between (sx, sy) and (tx, ty) along the walk
/// direction is empty. Meaningful for straight lines (a rank, a file or a
/// diagonal); callers consult it only after shape validation establishes one.
pub open spec fn spec_path_clear(s: Seq<Option<Piece>>, sx: int, sy: int, tx: int, ty: int) -> bool {
    forall |i: int| 1 <= i < path_len(sx, sy, tx, ty) ==> #[trigger] path_cell(s, sx, sy, tx, ty, i) is None
}

/// The board model after moving the occupant of `m.source` to `m.dest`,
/// marking it as having moved; any occupant of `m.dest` disappears. Boards
/// with an empty or off-board source are left unchanged.
pub open spec fn after_move(s: Seq<Option<Piece>>, m: Move) -> Seq<Option<Piece>> {
    let sx = m.source.x as int;
    let sy = m.source.y as int;
    let tx = m.dest.x as int;
    let ty = m.dest.y as int;
    if spec_in_bounds(m.source) && spec_in_bounds(m.dest) {
        match cell_of(s, sx, sy) {
            Some(p) => {
                let moved = Piece { kind: p.kind, side: p.side, has_moved: true };
                s.update(sx * 8 + sy, None).update(tx * 8 + ty, Some(moved))
            },
            None => s,
        }
    } else {
        s
    }
}

/// How `after_move` reads cell by cell: the destination holds the mover with
/// `has_moved` set, the source is empty, and every other cell is unchanged.
pub proof fn lemma_after_move_cells(s: Seq<Option<Piece>>, m: Move, x: int, y: int)
    requires
        board_wf(s),
        spec_in_bounds(m.source),
        spec_in_bounds(m.dest),
        cell_of(s, m.source.x as int, m.source.y as int) is Some,
        in_bounds_xy(x, y),
    ensures
        cell_of(after_move(s, m), x, y) == (if x == m.dest.x as int && y == m.dest.y as int {
            Some(Piece {
                kind: cell_of(s, m.source.x as int, m.source.y as int)->Some_0.kind,
                side: cell_of(s, m.source.x as int, m.source.y as int)->Some_0.side,
                has_moved: true,
            })
        } else if x == m.source.x as int && y == m.source.y as int {
            None::<Piece>
        } else {
            cell_of(s, x, y)
        }),
{
}

impl Board {
    /// Well-formedness: the grid holds exactly 64 cells. Constructors
    /// establish it and every method preserves it.
    pub open spec fn wf(&self) -> bool {
        board_wf(self@)
    }

    /// A board with every cell empty.
    pub fn empty() -> (r: Board)
        ensures
            r.wf(),
            forall |x: int, y: int| in_bounds_xy(x, y) ==> #[trigger] cell_of(r@, x, y) is None,
    {
        let mut cells: Vec<Option<Piece>> = Vec::new();
        let mut i: usize = 0;
        while i < 64
            invariant
                i <= 64,
                cells@.len() == i,
                forall |j: int| 0 <= j < i ==> #[trigger] cells@[j] is None,
            decreases 64 - i,
        {
            cells.push(None);
            i = i + 1;
        }
        Board { cells }
    }

    /// The occupant of a cell given by raw (possibly off-board) indices;
    /// off-board indices hold nothing.
    pub fn cell_at(&self, x: i32, y: i32) -> (r: Option<Piece>)
        requires
            self.wf(),
        ensures
            r == cell_of(self@, x as int, y as int),
    {
        if 0 <= x && x < 8 && 0 <= y && y < 8 {
            let idx: usize = (x as usize) * 8 + (y as usize);
            self.cells[idx]
        } else {
            None
        }
    }

    /// The occupant of the cell at `c`, or `None` for an empty or off-board
    /// coordinate.
    pub fn piece_at(&self, c: Coordinate) -> (r: Option<Piece>)
        requires
            self.wf(),
        ensures
            r == cell_of(self@, c.x as int, c.y as int),
    {
        self.cell_at(c.x as i32, c.y as i32)
    }

    /// Cell lookup; rejects an off-board coordinate.
    pub fn get(&self, c: Coordinate) -> (r: Result<Option<Piece>, MoveError>)
        requires
            self.wf(),
        ensures
            spec_in_bounds(c) ==> r == Ok::<Option<Piece>, MoveError>(cell_of(self@, c.x as int, c.y as int)),
            !spec_in_bounds(c) ==> r == Err::<Option<Piece>, MoveError>(MoveError::OutOfBounds),
    {
        if in_bounds(c) {
            Ok(self.piece_at(c))
        } else {
            Err(MoveError::OutOfBounds)
        }
    }

    /// Puts `p` on the cell at `c`, replacing any occupant; rejects an
    /// off-board coordinate and leaves the board unchanged.
    pub fn place(&mut self, c: Coordinate, p: Piece) -> (r: Result<(), MoveError>)
        requires
            old(self).wf(),
        ensures
            final(self).wf(),
            spec_in_bounds(c) ==> r == Ok::<(), MoveError>(())
                && final(self)@ == old(self)@.update(c.x as int * 8 + c.y as int, Some(p)),
            !spec_in_bounds(c) ==> r == Err::<(), MoveError>(MoveError::OutOfBounds)
                && final(self)@ == old(self)@,
    {
        if in_bounds(c) {
            let idx: usize = (c.x as usize) * 8 + (c.y as usize);
            self.cells[idx] = Some(p);
            Ok(())
        } else {
            Err(MoveError::OutOfBounds)
        }
    }

    /// Empties the cell at `c` and returns what it held; rejects an
    /// off-board coordinate and leaves the board unchanged.
    pub fn remove(&mut self, c: Coordinate) -> (r: Result<Option<Piece>, MoveError>)
        requires
            old(self).wf(),
        ensures
            final(self).wf(),
            spec_in_bounds(c) ==> r == Ok::<Option<Piece>, MoveError>(cell_of(old(self)@, c.x as int, c.y as int))
                && final(self)@ == old(self)@.update(c.x as int * 8 + c.y as int, None::<Piece>),
            !spec_in_bounds(c) ==> r == Err::<Option<Piece>, MoveError>(MoveError::OutOfBounds)
                && final(self)@ == old(self)@,
    {
        if in_bounds(c) {
            let idx: usize = (c.x as usize) * 8 + (c.y as usize);
            let occupant = self.cells[idx];
            self.cells[idx] = None;
            Ok(occupant)
        } else {
            Err(MoveError::OutOfBounds)
        }
    }

    /// Whether every cell strictly between `a` and `b` along the direction
    /// vector is empty; walks unit steps exclusive of both endpoints.
    pub fn is_path_clear(&self, a: Coordinate, b: Coordinate) -> (r: bool)
        requires
            self.wf(),
        ensures
            r == spec_path_clear(self@, a.x as int, a.y as int, b.x as int, b.y as int),
    {
        let ghost sx = a.x as int;
        let ghost sy = a.y as int;
        let ghost tx = b.x as int;
        let ghost ty = b.y as int;
        let (stepx, stepy) = crate::geometry::direction_vector(a, b);
        let dxa: i32 = if b.x >= a.x { b.x as i32 - a.x as i32 } else { a.x as i32 - b.x as i32 };
        let dya: i32 = if b.y >= a.y { b.y as i32 - a.y as i32 } else { a.y as i32 - b.y as i32 };
        let n: i32 = if dxa >= dya { dxa } else { dya };
        assert(n as int == path_len(sx, sy, tx, ty));
        let mut i: i32 = 1;
        let mut cx: i32 = a.x as i32 + stepx as i32;
        let mut cy: i32 = a.y as i32 + stepy as i32;
        proof {
            assert(cx as int == sx + 1 * sign_int(tx - sx)) by (nonlinear_arith)
                requires cx == a.x as i32 + stepx as i32, stepx as int == sign_int(tx - sx), sx == a.x as int;
            assert(cy as int == sy + 1 * sign_int(ty - sy)) by (nonlinear_arith)
                requires cy == a.y as i32 + stepy as i32, stepy as int == sign_int(ty - sy), sy == a.y as int;
        }
        while i < n
            invariant
                self.wf(),
                1 <= i <= 256,
                n <= 255,
                sx == a.x as int,
                sy == a.y as int,
                tx == b.x as int,
                ty == b.y as int,
                stepx as int == sign_int(tx - sx),
                stepy as int == sign_int(ty - sy),
                -128 <= sx <= 127,
                -128 <= sy <= 127,
                n as int == path_len(sx, sy, tx, ty),
                cx as int == sx + i * sign_int(tx - sx),
                cy as int == sy + i * sign_int(ty - sy),
                -384 <= cx <= 384,
                -384 <= cy <= 384,
                forall |j: int| 1 <= j < i ==> #[trigger] path_cell(self@, sx, sy, tx, ty, j) is None,
            decreases n - i,
        {
            if self.cell_at(cx, cy).is_some() {
                proof {
                    assert(path_cell(self@, sx, sy, tx, ty, i as int) is Some);
                }
                return false;
            }
            proof {
                assert(cx as int + stepx as int == sx + (i + 1) * sign_int(tx - sx)
                    && -384 <= cx as int + stepx as int <= 384) by (nonlinear_arith)
                    requires
                        cx as int == sx + i * sign_int(tx - sx),
                        stepx as int == sign_int(tx - sx),
                        -128 <= sx <= 127,
                        -1 <= sign_int(tx - sx) <= 1,
                        1 <= i <= 255;
                assert(cy as int + stepy as int == sy + (i + 1) * sign_int(ty - sy)
                    && -384 <= cy as int + stepy as int <= 384) by (nonlinear_arith)
                    requires
                        cy as int == sy + i * sign_int(ty - sy),
                        stepy as int == sign_int(ty - sy),
                        -128 <= sy <= 127,
                        -1 <= sign_int(ty - sy) <= 1,
                        1 <= i <= 255;
            }
            cx = cx + stepx as i32;
            cy = cy + stepy as i32;
            i = i + 1;
        }
        true
    }

    /// The coordinate of a king of `side`, if one stands on the board.
    pub fn find_king(&self, side: Side) -> (r: Option<Coordinate>)
        requires
            self.wf(),
        ensures
            match r {
                Some(c) => spec_in_bounds(c)
                    && (cell_of(self@, c.x as int, c.y as int) matches Some(p)
                        && p.kind == PieceKind::King && p.side == side),
                None => forall |x: int, y: int| in_bounds_xy(x, y)
                    ==> !(#[trigger] cell_of(self@, x, y) matches Some(p)
                        && p.kind == PieceKind::King && p.side == side),
            },
    {
        let mut x: i8 = 0;
        while x < 8
            invariant
                self.wf(),
                0 <= x <= 8,
                forall |u: int, v: int| 0 <= u < x && 0 <= v < 8
                    ==> !(#[trigger] cell_of(self@, u, v) matches Some(p)
                        && p.kind == PieceKind::King && p.side == side),
            decreases 8 - x,
        {
            let mut y: i8 = 0;
            while y < 8
                invariant
                    self.wf(),
                    0 <= x < 8,
                    0 <= y <= 8,
                    forall |u: int, v: int| 0 <= u < x && 0 <= v < 8
                        ==> !(#[trigger] cell_of(self@, u, v) matches Some(p)
                            && p.kind == PieceKind::King && p.side == side),
                    forall |v: int| 0 <= v < y
                        ==> !(#[trigger] cell_of(self@, x as int, v) matches Some(p)
                            && p.kind == PieceKind::King && p.side == side),
                decreases 8 - y,
            {
                match self.cell_at(x as i32, y as i32) {
                    Some(p) => {
                        if matches!(p.kind, PieceKind::King) && p.side == side {
                            return Some(Coordinate { x, y });
                        }
                    },
                    None => {},
                }
                y = y + 1;
            }
            x = x + 1;
        }
        None
    }

    /// A fresh board equal to this one after `m`: the mover stands on the
    /// destination with `has_moved` set, the source is empty, everything
    /// else is untouched. Used to simulate a move on a scratch copy.
    pub fn board_after(&self, m: Move) -> (r: Board)
        requires
            self.wf(),
            spec_in_bounds(m.source),
            spec_in_bounds(m.dest),
            cell_of(self@, m.source.x as int, m.source.y as int) is Some,
        ensures
            r.wf(),
            r@ == after_move(self@, m),
    {
        let src_idx: usize = (m.source.x as usize) * 8 + (m.source.y as usize);
        let dst_idx: usize = (m.dest.x as usize) * 8 + (m.dest.y as usize);
        let occupant = self.cells[src_idx];
        let moved = match occupant {
            Some(p) => Piece { kind: p.kind, side: p.side, has_moved: true },
            None => Piece { kind: PieceKind::Pawn, side: Side::First, has_moved: true },
        };
        let mut cells: Vec<Option<Piece>> = Vec::new();
        let mut i: usize = 0;
        while i < 64
            invariant
                self.wf(),
                i <= 64,
                cells@.len() == i,
                src_idx == m.source.x as int * 8 + m.source.y as int,
                dst_idx == m.dest.x as int * 8 + m.dest.y as int,
                src_idx < 64,
                dst_idx < 64,
                spec_in_bounds(m.source),
                spec_in_bounds(m.dest),
                cell_of(self@, m.source.x as int, m.source.y as int) is Some,
                moved == (Piece {
                    kind: cell_of(self@, m.source.x as int, m.source.y as int)->Some_0.kind,
                    side: cell_of(self@, m.source.x as int, m.source.y as int)->Some_0.side,
                    has_moved: true,
                }),
                forall |j: int| 0 <= j < i ==> #[trigger] cells@[j] == after_move(self@, m)[j],
            decreases 64 - i,
        {
            if i == dst_idx {
                cells.push(Some(moved));
            } else if i == src_idx {
                cells.push(None);
            } else {
                cells.push(self.cells[i]);
            }
            i = i + 1;
        }
        proof {
            assert(after_move(self@, m).len() == 64);
            assert(cells@ =~= after_move(self@, m));
        }
        Board { cells }
    }
}

} // verus!
