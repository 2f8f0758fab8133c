//! The game state machine: the board, the side to move, the applied-move
//! history, and the derived status (to-move, check, checkmate, stalemate).
//! All mutation goes through `apply`, which first validates the move.

use vstd::prelude::*;
use crate::geometry::{Coordinate, Move, in_bounds_xy, spec_in_bounds};
use crate::piece::{Piece, PieceKind, Side, spec_opposite, spec_cell_glyph};
use crate::board::{Board, board_wf, cell_of, after_move};
use crate::validator::{spec_in_check, spec_validate, move_ok, in_check, validate};
use crate::error::{MoveError, LegalMove};

verus! {

/// The phase of a game. `Checkmate` names the loser; `Check` and `ToMove`
/// name the side that must move next.
#[derive(Copy, Clone, PartialEq, Eq, Structural, Debug)]
pub enum Status {
    ToMove(Side),
    Check(Side),
    Checkmate(Side),
    Stalemate,
}

/// Whether the game has ended: checkmate and stalemate are terminal.
pub open spec fn spec_game_over(st: Status) -> bool {
    st is Checkmate || st is Stalemate
}

/// Whether `side` has at least one move the validator accepts on `s`.
pub open spec fn spec_has_move(s: Seq<Option<Piece>>, side: Side) -> bool {
    exists |m: Move| #[trigger] move_ok(s, side, m)
}

/// The status of a position in which it is `side`'s turn: the four outcomes
/// of the check / has-a-legal-move square.
pub open spec fn status_of(s: Seq<Option<Piece>>, side: Side) -> Status {
    if spec_in_check(s, side) {
        if spec_has_move(s, side) {
            Status::Check(side)
        } else {
            Status::Checkmate(side)
        }
    } else {
        if spec_has_move(s, side) {
            Status::ToMove(side)
        } else {
            Status::Stalemate
        }
    }
}

/// The kind standing on the back rank at file `y` in the starting position.
pub open spec fn back_rank_kind(y: int) -> PieceKind {
    if y == 0 || y == 7 {
        PieceKind::Rook
    } else if y == 1 || y == 6 {
        PieceKind::Knight
    } else if y == 2 || y == 5 {
        PieceKind::Bishop
    } else if y == 3 {
        PieceKind::Queen
    } else {
        PieceKind::King
    }
}

/// The starting occupant of cell (x, y): the first side's back rank on rank
/// 0 and pawns on rank 1, the second side's mirrored on ranks 7 and 6.
pub open spec fn init_cell(x: int, y: int) -> Option<Piece> {
    if x == 1 {
        Some(Piece { kind: PieceKind::Pawn, side: Side::First, has_moved: false })
    } else if x == 6 {
        Some(Piece { kind: PieceKind::Pawn, side: Side::Second, has_moved: false })
    } else if x == 0 {
        Some(Piece { kind: back_rank_kind(y), side: Side::First, has_moved: false })
    } else if x == 7 {
        Some(Piece { kind: back_rank_kind(y), side: Side::Second, has_moved: false })
    } else {
        None
    }
}

/// The standard starting position as a board model.
pub open spec fn init_board() -> Seq<Option<Piece>> {
    Seq::new(64, |i: int| init_cell(i / 8, i % 8))
}

/// The ghost image of a game: the board model, whose turn it is, the derived
/// status, and the moves applied so far.
pub struct GameView {
    pub board: Seq<Option<Piece>>,
    pub turn: Side,
    pub status: Status,
    pub history: Seq<Move>,
}

/// A game of the engine: the single owner of its board. The status is
/// derived state, recomputed on every applied move.
pub struct Game {
    board: Board,
    turn: Side,
    status: Status,
    history: Vec<Move>,
}

impl View for Game {
    type V = GameView;

    closed spec fn view(&self) -> GameView {
        GameView {
            board: self.board@,
            turn: self.turn,
            status: self.status,
            history: self.history@,
        }
    }
}

/// Decides whether `side` has at least one legal move on `board`.
pub fn has_any_move(board: &Board, side: Side) -> (r: bool)
    requires
        board.wf(),
    ensures
        r == spec_has_move(board@, side),
{
    let mut si: usize = 0;
    while si < 64
        invariant
            board.wf(),
            si <= 64,
            forall |m: Move| spec_in_bounds(m.source) && spec_in_bounds(m.dest)
                && (m.source.x as int) * 8 + (m.source.y as int) < si
                ==> !(#[trigger] move_ok(board@, side, m)),
        decreases 64 - si,
    {
        let sx: i8 = (si / 8) as i8;
        let sy: i8 = (si % 8) as i8;
        let source = Coordinate { x: sx, y: sy };
        let mut di: usize = 0;
        while di < 64
            invariant
                board.wf(),
                di <= 64,
                0 <= sx < 8,
                0 <= sy < 8,
                si < 64,
                si == sx as int * 8 + sy as int,
                source == (Coordinate { x: sx, y: sy }),
                forall |m: Move| spec_in_bounds(m.source) && spec_in_bounds(m.dest)
                    && (m.source.x as int) * 8 + (m.source.y as int) < si
                    ==> !(#[trigger] move_ok(board@, side, m)),
                forall |m: Move| spec_in_bounds(m.dest) && m.source == source
                    && (m.dest.x as int) * 8 + (m.dest.y as int) < di
                    ==> !(#[trigger] move_ok(board@, side, m)),
            decreases 64 - di,
        {
            let dest = Coordinate { x: (di / 8) as i8, y: (di % 8) as i8 };
            let m = Move { source, dest };
            if validate(board, side, m).is_ok() {
                proof {
                    assert(move_ok(board@, side, m));
                }
                return true;
            }
            di = di + 1;
        }
        si = si + 1;
    }
    proof {
        assert forall |m: Move| !(#[trigger] move_ok(board@, side, m)) by {
            if move_ok(board@, side, m) {
                lemma_move_ok_in_bounds(board@, side, m);
            }
        }
    }
    false
}

/// A move the validator accepts has an on-board source holding a piece and
/// an on-board destination.
pub proof fn lemma_move_ok_in_bounds(s: Seq<Option<Piece>>, side: Side, m: Move)
    requires
        move_ok(s, side, m),
    ensures
        spec_in_bounds(m.source),
        spec_in_bounds(m.dest),
        cell_of(s, m.source.x as int, m.source.y as int) is Some,
{
    assert(cell_of(s, m.source.x as int, m.source.y as int) is Some);
    if !in_bounds_xy(m.source.x as int, m.source.y as int) {
        assert(cell_of(s, m.source.x as int, m.source.y as int) is None);
    }
}

/// Computes the status of a position in which it is `side`'s turn.
pub fn compute_status(board: &Board, side: Side) -> (r: Status)
    requires
        board.wf(),
    ensures
        r == status_of(board@, side),
{
    let checked = in_check(board, side);
    let movable = has_any_move(board, side);
    if checked {
        if movable {
            Status::Check(side)
        } else {
            Status::Checkmate(side)
        }
    } else {
        if movable {
            Status::ToMove(side)
        } else {
            Status::Stalemate
        }
    }
}

impl Game {
    /// Well-formedness: the board has its 64 cells and the stored status is
    /// exactly the derived status of the position for the side to move.
    pub open spec fn wf(&self) -> bool {
        board_wf(self@.board) && self@.status == status_of(self@.board, self@.turn)
    }

    /// A fresh game in the standard starting position, first side to move.
    pub fn new() -> (r: Game)
        ensures
            r.wf(),
            r@.board == init_board(),
            r@.turn == Side::First,
            r@.status == status_of(init_board(), Side::First),
            r@.history.len() == 0,
    {
        let mut cells_board = Board::empty();
        let mut i: usize = 0;
        while i < 64
            invariant
                cells_board.wf(),
                i <= 64,
                forall |x: int, y: int| in_bounds_xy(x, y) && x * 8 + y < i
                    ==> #[trigger] cell_of(cells_board@, x, y) == init_cell(x, y),
                forall |x: int, y: int| in_bounds_xy(x, y) && x * 8 + y >= i
                    ==> #[trigger] cell_of(cells_board@, x, y) is None,
            decreases 64 - i,
        {
            let x: i8 = (i / 8) as i8;
            let y: i8 = (i % 8) as i8;
            proof {
                assert((x as int) * 8 + (y as int) == i && 0 <= (x as int) < 8 && 0 <= (y as int) < 8)
                    by (nonlinear_arith)
                    requires x as int == i as int / 8, y as int == i as int % 8, 0 <= i < 64;
            }
            let occupant = init_cell_exec(x, y);
            match occupant {
                Some(p) => {
                    let ghost before = cells_board@;
                    let placed = cells_board.place(Coordinate { x, y }, p);
                    proof {
                        assert(placed is Ok);
                        assert forall |u: int, v: int| in_bounds_xy(u, v) && u * 8 + v < i + 1
                            implies #[trigger] cell_of(cells_board@, u, v) == init_cell(u, v) by {
                            if u == x as int && v == y as int {
                                assert(cell_of(cells_board@, u, v) == Some(p));
                            } else {
                                assert(u * 8 + v != i);
                                assert(cell_of(cells_board@, u, v) == cell_of(before, u, v));
                            }
                        }
                        assert forall |u: int, v: int| in_bounds_xy(u, v) && u * 8 + v >= i + 1
                            implies #[trigger] cell_of(cells_board@, u, v) is None by {
                            assert(u * 8 + v != i);
                            assert(cell_of(cells_board@, u, v) == cell_of(before, u, v));
                        }
                    }
                },
                None => {
                    proof {
                        assert forall |u: int, v: int| in_bounds_xy(u, v) && u * 8 + v < i + 1
                            implies #[trigger] cell_of(cells_board@, u, v) == init_cell(u, v) by {
                            if u == x as int && v == y as int {
                                assert(init_cell(u, v) is None);
                            }
                        }
                    }
                },
            }
            i = i + 1;
        }
        proof {
            assert forall |j: int| 0 <= j < 64
                implies cells_board@[j] == init_board()[j] by {
                let x = j / 8;
                let y = j % 8;
                assert(0 <= x < 8 && 0 <= y < 8 && x * 8 + y == j) by (nonlinear_arith)
                    requires x == j / 8, y == j % 8, 0 <= j < 64;
                assert(cell_of(cells_board@, x, y) == init_cell(x, y));
                assert(init_board()[j] == init_cell(x, y));
            }
            assert(cells_board@ =~= init_board());
        }
        let status = compute_status(&cells_board, Side::First);
        Game {
            board: cells_board,
            turn: Side::First,
            status,
            history: Vec::new(),
        }
    }

    /// A game starting from a constructed position with `turn` to move; the
    /// status is derived from the position.
    pub fn from_position(board: Board, turn: Side) -> (r: Game)
        requires
            board.wf(),
        ensures
            r.wf(),
            r@.board == board@,
            r@.turn == turn,
            r@.status == status_of(board@, turn),
            r@.history.len() == 0,
    {
        let status = compute_status(&board, turn);
        Game { board, turn, status, history: Vec::new() }
    }

    /// The side to move (for a finished game: the side the game ended on).
    pub fn turn(&self) -> (r: Side)
        ensures
            r == self@.turn,
    {
        self.turn
    }

    /// The current status.
    pub fn status(&self) -> (r: Status)
        ensures
            r == self@.status,
    {
        self.status
    }

    /// The board, read-only.
    pub fn board(&self) -> (r: &Board)
        ensures
            r@ == self@.board,
    {
        &self.board
    }

    /// The moves applied so far, oldest first.
    pub fn history(&self) -> (r: &Vec<Move>)
        ensures
            r@ == self@.history,
    {
        &self.history
    }

    /// Applies `m` for the side to move. A move of a finished game is
    /// rejected with `GameOver`; an illegal move is rejected with the
    /// validator's reason; in both cases the state is left unchanged. A
    /// legal move mutates the board, appends to the history, passes the turn
    /// to the opponent, and derives the new status: opponent attacked with a
    /// move left is check, attacked without one checkmate, unattacked
    /// without one stalemate.
    pub fn apply(&mut self, m: Move) -> (r: Result<LegalMove, MoveError>)
        requires
            old(self).wf(),
        ensures
            final(self).wf(),
            spec_game_over(old(self)@.status) ==> r == Err::<LegalMove, MoveError>(MoveError::GameOver)
                && final(self)@ == old(self)@,
            !spec_game_over(old(self)@.status) && spec_validate(old(self)@.board, old(self)@.turn, m) is Err
                ==> r == spec_validate(old(self)@.board, old(self)@.turn, m)
                && final(self)@ == old(self)@,
            !spec_game_over(old(self)@.status) && spec_validate(old(self)@.board, old(self)@.turn, m) is Ok
                ==> r == spec_validate(old(self)@.board, old(self)@.turn, m)
                && final(self)@.board == after_move(old(self)@.board, m)
                && final(self)@.turn == spec_opposite(old(self)@.turn)
                && final(self)@.status == status_of(after_move(old(self)@.board, m), spec_opposite(old(self)@.turn))
                && final(self)@.history == old(self)@.history.push(m),
    {
        match self.status {
            Status::Checkmate(_) => {
                return Err(MoveError::GameOver);
            },
            Status::Stalemate => {
                return Err(MoveError::GameOver);
            },
            _ => {},
        }
        let verdict = validate(&self.board, self.turn, m);
        let legal = match verdict {
            Ok(legal) => legal,
            Err(reason) => {
                return Err(reason);
            },
        };
        let next_board = self.board.board_after(m);
        self.board = next_board;
        self.history.push(m);
        self.turn = self.turn.opposite();
        self.status = compute_status(&self.board, self.turn);
        Ok(legal)
    }

    /// Every destination the validator accepts for the piece at `c`, in
    /// row-major scan order; empty when the cell is empty or does not hold a
    /// piece of the side to move.
    pub fn legal_moves_for(&self, c: Coordinate) -> (r: Vec<Coordinate>)
        requires
            self.wf(),
        ensures
            forall |i: int| 0 <= i < r@.len()
                ==> move_ok(self@.board, self@.turn, Move { source: c, dest: #[trigger] r@[i] }),
            forall |d: Coordinate| spec_in_bounds(d)
                && #[trigger] move_ok(self@.board, self@.turn, Move { source: c, dest: d })
                ==> r@.contains(d),
            forall |i: int, j: int| 0 <= i < j < r@.len()
                ==> #[trigger] (r@[i].x as int) * 8 + (r@[i].y as int)
                    < #[trigger] ((r@[j].x as int) * 8 + (r@[j].y as int)),
    {
        let mut found: Vec<Coordinate> = Vec::new();
        let mut di: usize = 0;
        while di < 64
            invariant
                self.wf(),
                di <= 64,
                forall |i: int| 0 <= i < found@.len()
                    ==> move_ok(self@.board, self@.turn, Move { source: c, dest: #[trigger] found@[i] }),
                forall |d: Coordinate| spec_in_bounds(d)
                    && #[trigger] move_ok(self@.board, self@.turn, Move { source: c, dest: d })
                    && (d.x as int) * 8 + (d.y as int) < di
                    ==> found@.contains(d),
                forall |i: int| 0 <= i < found@.len()
                    ==> 0 <= #[trigger] (found@[i].x as int) * 8 + (found@[i].y as int) < di,
                forall |i: int, j: int| 0 <= i < j < found@.len()
                    ==> #[trigger] (found@[i].x as int) * 8 + (found@[i].y as int)
                        < #[trigger] ((found@[j].x as int) * 8 + (found@[j].y as int)),
            decreases 64 - di,
        {
            let dest = Coordinate { x: (di / 8) as i8, y: (di % 8) as i8 };
            let m = Move { source: c, dest };
            let ghost found_before = found@;
            let accepted = validate(&self.board, self.turn, m).is_ok();
            if accepted {
                found.push(dest);
            }
            proof {
                assert((dest.x as int) * 8 + (dest.y as int) == di
                    && 0 <= (dest.x as int) < 8 && 0 <= (dest.y as int) < 8)
                    by (nonlinear_arith)
                    requires dest.x as int == di as int / 8, dest.y as int == di as int % 8, 0 <= di < 64;
                assert forall |d: Coordinate| spec_in_bounds(d)
                    && #[trigger] move_ok(self@.board, self@.turn, Move { source: c, dest: d })
                    && (d.x as int) * 8 + (d.y as int) < di + 1
                    implies found@.contains(d) by {
                    if (d.x as int) * 8 + (d.y as int) == di {
                        assert(d.x == dest.x && d.y == dest.y);
                        assert(accepted);
                        assert(found@[found@.len() - 1] == d);
                        assert(found@.contains(d));
                    } else {
                        assert(found_before.contains(d));
                        let k = choose |k: int| 0 <= k < found_before.len() && found_before[k] == d;
                        assert(found@[k] == d);
                        assert(found@.contains(d));
                    }
                }
            }
            di = di + 1;
        }
        found
    }

    /// The board as an 8x8 grid of display glyphs, rank by rank: one glyph
    /// per cell, distinct per kind and side, '_' for an empty cell.
    pub fn render(&self) -> (r: Vec<Vec<char>>)
        requires
            self.wf(),
        ensures
            r@.len() == 8,
            forall |x: int| 0 <= x < 8 ==> #[trigger] r@[x]@.len() == 8,
            forall |x: int, y: int| in_bounds_xy(x, y)
                ==> #[trigger] r@[x]@[y] == spec_cell_glyph(cell_of(self@.board, x, y)),
    {
        let mut rows: Vec<Vec<char>> = Vec::new();
        let mut x: i8 = 0;
        while x < 8
            invariant
                self.wf(),
                0 <= x <= 8,
                rows@.len() == x as int,
                forall |u: int| 0 <= u < x ==> #[trigger] rows@[u]@.len() == 8,
                forall |u: int, v: int| 0 <= u < x && 0 <= v < 8
                    ==> #[trigger] rows@[u]@[v] == spec_cell_glyph(cell_of(self@.board, u, v)),
            decreases 8 - x,
        {
            let mut row: Vec<char> = Vec::new();
            let mut y: i8 = 0;
            while y < 8
                invariant
                    self.wf(),
                    0 <= x < 8,
                    0 <= y <= 8,
                    row@.len() == y as int,
                    forall |v: int| 0 <= v < y
                        ==> #[trigger] row@[v] == spec_cell_glyph(cell_of(self@.board, x as int, v)),
                decreases 8 - y,
            {
                let glyph = match self.board.cell_at(x as i32, y as i32) {
                    Some(p) => p.glyph(),
                    None => '_',
                };
                row.push(glyph);
                y = y + 1;
            }
            rows.push(row);
            x = x + 1;
        }
        rows
    }
}

/// The starting occupant of cell (x, y), executably.
fn init_cell_exec(x: i8, y: i8) -> (r: Option<Piece>)
    requires
        0 <= x < 8,
        0 <= y < 8,
    ensures
        r == init_cell(x as int, y as int),
{
    if x == 1 {
        Some(Piece { kind: PieceKind::Pawn, side: Side::First, has_moved: false })
    } else if x == 6 {
        Some(Piece { kind: PieceKind::Pawn, side: Side::Second, has_moved: false })
    } else if x == 0 || x == 7 {
        let kind = if y == 0 || y == 7 {
            PieceKind::Rook
        } else if y == 1 || y == 6 {
            PieceKind::Knight
        } else if y == 2 || y == 5 {
            PieceKind::Bishop
        } else if y == 3 {
            PieceKind::Queen
        } else {
            PieceKind::King
        };
        let side = if x == 0 { Side::First } else { Side::Second };
        Some(Piece { kind, side, has_moved: false })
    } else {
        None
    }
}

} // verus!
