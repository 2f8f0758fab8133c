//! The reasons a move can be rejected, and the record a successful
//! validation returns.

use vstd::prelude::*;
use crate::piece::PieceKind;

verus! {

/// Why a move was rejected. Every rejection is recoverable: the engine
/// leaves the state unchanged and reports the reason to the caller.
#[derive(Copy, Clone, PartialEq, Eq, Structural, Debug)]
pub enum MoveError {
    /// A coordinate does not name a board cell.
    OutOfBounds,
    /// The source cell is empty or holds a piece of the other side.
    NoPieceOrWrongSide,
    /// Source and destination coincide.
    NullMove,
    /// The piece kind's movement pattern (including its path-obstruction
    /// check) rejects the move.
    ShapeInvalid,
    /// The destination holds a piece of the mover's own side.
    FriendlyFire,
    /// The move would leave the mover's own king on an attacked square.
    LeavesKingInCheck,
    /// The game has already ended in checkmate or stalemate.
    GameOver,
}

/// What a successful validation reports: whether the move captures, and the
/// kind of the captured piece for display or scoring. Validation itself never
/// mutates state.
#[derive(Copy, Clone, PartialEq, Eq, Structural, Debug)]
pub struct LegalMove {
    pub is_capture: bool,
    pub captured_kind: Option<PieceKind>,
}

impl MoveError {
    /// A short description of the rejection, for a presentation layer.
    pub fn describe(self) -> (r: &'static str)
        ensures
            r@.len() > 0,
    {
        let r = match self {
            MoveError::OutOfBounds => "coordinate is off the board",
            MoveError::NoPieceOrWrongSide => "source holds no piece of the mover",
            MoveError::NullMove => "source and destination coincide",
            MoveError::ShapeInvalid => "movement pattern or path rejects the move",
            MoveError::FriendlyFire => "destination holds the mover's own piece",
            MoveError::LeavesKingInCheck => "move would leave the king in check",
            MoveError::GameOver => "the game is already over",
        };
        proof {
            reveal_strlit("coordinate is off the board");
            reveal_strlit("source holds no piece of the mover");
            reveal_strlit("source and destination coincide");
            reveal_strlit("movement pattern or path rejects the move");
            reveal_strlit("destination holds the mover's own piece");
            reveal_strlit("move would leave the king in check");
            reveal_strlit("the game is already over");
        }
        r
    }
}

} // verus!
