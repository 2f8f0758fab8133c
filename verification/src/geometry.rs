//! Coordinates on the fixed 8x8 grid, vector arithmetic and bounds checks.
//!
//! A `Coordinate` holds a rank index `x` (row) and a file index `y` (column).
//! Off-board coordinates are representable; `in_bounds` tells them apart from
//! board cells, and nothing ever clamps them silently.

use vstd::prelude::*;

verus! {

/// A position on (or off) the board: `x` is the rank (row), `y` the file
/// (column). A coordinate names a board cell exactly when both lie in [0, 8).
#[derive(Copy, Clone, PartialEq, Eq, Structural, Debug)]
pub struct Coordinate {
    pub x: i8,
    pub y: i8,
}

/// A candidate move: a source and a destination coordinate. Ephemeral,
/// constructed per legality check, never stored inside the board.
#[derive(Copy, Clone, PartialEq, Eq, Structural, Debug)]
pub struct Move {
    pub source: Coordinate,
    pub dest: Coordinate,
}

/// Whether the pair (x, y) names a cell of the 8x8 board.
pub open spec fn in_bounds_xy(x: int, y: int) -> bool {
    0 <= x < 8 && 0 <= y < 8
}

/// Whether the coordinate names a cell of the 8x8 board.
pub open spec fn spec_in_bounds(c: Coordinate) -> bool {
    in_bounds_xy(c.x as int, c.y as int)
}

/// Absolute value.
pub open spec fn abs_int(v: int) -> int {
    if v < 0 { -v } else { v }
}

/// The sign of `v`: -1, 0 or 1.
pub open spec fn sign_int(v: int) -> int {
    if v < 0 { -1 } else if v > 0 { 1 } else { 0 }
}

impl Coordinate {
    pub fn new(x: i8, y: i8) -> (r: Coordinate)
        ensures
            r.x == x && r.y == y,
    {
        Coordinate { x, y }
    }
}

impl Move {
    pub fn new(source: Coordinate, dest: Coordinate) -> (r: Move)
        ensures
            r.source == source && r.dest == dest,
    {
        Move { source, dest }
    }
}

/// Bounds check for a coordinate.
pub fn in_bounds(c: Coordinate) -> (r: bool)
    ensures
        r == spec_in_bounds(c),
{
    0 <= c.x && c.x < 8 && 0 <= c.y && c.y < 8
}

/// Pure vector addition on coordinates; no bounds check of any kind.
pub fn offset(c: Coordinate, dx: i8, dy: i8) -> (r: Coordinate)
    requires
        i8::MIN <= c.x + dx <= i8::MAX,
        i8::MIN <= c.y + dy <= i8::MAX,
    ensures
        r.x == c.x + dx,
        r.y == c.y + dy,
{
    Coordinate { x: c.x + dx, y: c.y + dy }
}

/// The unit step (sign of the rank delta, sign of the file delta) used to
/// walk the straight line from `a` towards `b`.
pub fn direction_vector(a: Coordinate, b: Coordinate) -> (r: (i8, i8))
    ensures
        r.0 == sign_int(b.x - a.x),
        r.1 == sign_int(b.y - a.y),
{
    let dx: i8 = if b.x < a.x {
        -1
    } else if b.x > a.x {
        1
    } else {
        0
    };
    let dy: i8 = if b.y < a.y {
        -1
    } else if b.y > a.y {
        1
    } else {
        0
    };
    (dx, dy)
}

} // verus!
