//! The two sides, the closed catalogue of piece kinds, and the piece value
//! that a board cell can hold.

use vstd::prelude::*;

verus! {

/// Exactly the two players. An empty cell is `None` at the board level, never
/// a third side.
#[derive(Copy, Clone, PartialEq, Eq, Structural, Debug)]
pub enum Side {
    First,
    Second,
}

/// The closed catalogue of piece kinds; the validator matches on it
/// exhaustively.
#[derive(Copy, Clone, PartialEq, Eq, Structural, Debug)]
pub enum PieceKind {
    Pawn,
    Knight,
    Bishop,
    Rook,
    Queen,
    King,
}

/// A piece as a board cell holds it. A captured piece is removed from the
/// board entirely; capture is reported as a transient return value of move
/// application, not stored as a flag here.
#[derive(Copy, Clone, PartialEq, Eq, Structural, Debug)]
pub struct Piece {
    pub kind: PieceKind,
    pub side: Side,
    pub has_moved: bool,
}

/// The opposing side.
pub open spec fn spec_opposite(s: Side) -> Side {
    match s {
        Side::First => Side::Second,
        Side::Second => Side::First,
    }
}

impl Side {
    /// The opposing side.
    pub fn opposite(self) -> (r: Side)
        ensures
            r == spec_opposite(self),
    {
        match self {
            Side::First => Side::Second,
            Side::Second => Side::First,
        }
    }
}

/// The display glyph of a piece: upper case for the first side, lower case
/// for the second.
pub open spec fn spec_glyph(kind: PieceKind, side: Side) -> char {
    match side {
        Side::First => match kind {
            PieceKind::Pawn => 'P',
            PieceKind::Knight => 'N',
            PieceKind::Bishop => 'B',
            PieceKind::Rook => 'R',
            PieceKind::Queen => 'Q',
            PieceKind::King => 'K',
        },
        Side::Second => match kind {
            PieceKind::Pawn => 'p',
            PieceKind::Knight => 'n',
            PieceKind::Bishop => 'b',
            PieceKind::Rook => 'r',
            PieceKind::Queen => 'q',
            PieceKind::King => 'k',
        },
    }
}

/// The glyph of an optional occupant; an empty cell shows '_'.
pub open spec fn spec_cell_glyph(cell: Option<Piece>) -> char {
    match cell {
        Some(p) => spec_glyph(p.kind, p.side),
        None => '_',
    }
}

impl Piece {
    pub fn new(kind: PieceKind, side: Side, has_moved: bool) -> (r: Piece)
        ensures
            r.kind == kind && r.side == side && r.has_moved == has_moved,
    {
        Piece { kind, side, has_moved }
    }

    /// The display glyph of this piece.
    pub fn glyph(self) -> (r: char)
        ensures
            r == spec_glyph(self.kind, self.side),
    {
        match self.side {
            Side::First => match self.kind {
                PieceKind::Pawn => 'P',
                PieceKind::Knight => 'N',
                PieceKind::Bishop => 'B',
                PieceKind::Rook => 'R',
                PieceKind::Queen => 'Q',
                PieceKind::King => 'K',
            },
            Side::Second => match self.kind {
                PieceKind::Pawn => 'p',
                PieceKind::Knight => 'n',
                PieceKind::Bishop => 'b',
                PieceKind::Rook => 'r',
                PieceKind::Queen => 'q',
                PieceKind::King => 'k',
            },
        }
    }
}

} // verus!
