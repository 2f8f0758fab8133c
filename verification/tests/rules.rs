//! Piece-rule and board-level behaviour, checked on concrete positions.

use chess_core::board::Board;
use chess_core::error::MoveError;
use chess_core::geometry::{direction_vector, in_bounds, offset, Coordinate, Move};
use chess_core::piece::{Piece, PieceKind, Side};
use chess_core::validator::validate;

fn c(x: i8, y: i8) -> Coordinate {
    Coordinate { x, y }
}

fn mv(sx: i8, sy: i8, tx: i8, ty: i8) -> Move {
    Move {
        source: c(sx, sy),
        dest: c(tx, ty),
    }
}

fn piece(kind: PieceKind, side: Side) -> Piece {
    Piece {
        kind,
        side,
        has_moved: false,
    }
}

#[test]
fn in_bounds_accepts_the_grid_and_rejects_the_rest() {
    assert!(in_bounds(c(0, 0)));
    assert!(in_bounds(c(7, 7)));
    assert!(!in_bounds(c(-1, 0)));
    assert!(!in_bounds(c(0, 8)));
    assert!(!in_bounds(c(8, 3)));
}

#[test]
fn offset_is_pure_vector_addition() {
    let moved = offset(c(2, 3), -3, 4);
    assert_eq!(moved, c(-1, 7));
}

#[test]
fn direction_vector_gives_unit_steps() {
    assert_eq!(direction_vector(c(0, 0), c(5, 0)), (1, 0));
    assert_eq!(direction_vector(c(4, 4), c(1, 7)), (-1, 1));
    assert_eq!(direction_vector(c(3, 3), c(3, 3)), (0, 0));
}

#[test]
fn board_get_rejects_off_board_coordinates() {
    let board = Board::empty();
    assert_eq!(board.get(c(8, 0)), Err(MoveError::OutOfBounds));
    assert_eq!(board.get(c(0, -1)), Err(MoveError::OutOfBounds));
    assert_eq!(board.get(c(4, 4)), Ok(None));
}

#[test]
fn board_place_and_remove_round_trip() {
    let mut board = Board::empty();
    let rook = piece(PieceKind::Rook, Side::First);
    assert!(board.place(c(3, 3), rook).is_ok());
    assert_eq!(board.get(c(3, 3)), Ok(Some(rook)));
    assert_eq!(board.remove(c(3, 3)), Ok(Some(rook)));
    assert_eq!(board.get(c(3, 3)), Ok(None));
    assert_eq!(board.place(c(-1, 0), rook), Err(MoveError::OutOfBounds));
    assert_eq!(board.remove(c(0, 9)), Err(MoveError::OutOfBounds));
}

#[test]
fn path_query_sees_an_intervening_piece() {
    let mut board = Board::empty();
    assert!(board.place(c(2, 2), piece(PieceKind::Pawn, Side::Second)).is_ok());
    assert!(!board.is_path_clear(c(0, 0), c(4, 4)));
    assert!(board.is_path_clear(c(0, 0), c(2, 2)));
    assert!(board.is_path_clear(c(4, 0), c(4, 7)));
}

#[test]
fn validation_is_repeatable_on_the_same_state() {
    let mut board = Board::empty();
    assert!(board.place(c(0, 0), piece(PieceKind::Rook, Side::First)).is_ok());
    let attempt = mv(0, 0, 0, 5);
    let first_verdict = validate(&board, Side::First, attempt);
    let second_verdict = validate(&board, Side::First, attempt);
    assert_eq!(first_verdict, second_verdict);
    let illegal = mv(0, 0, 3, 5);
    assert_eq!(
        validate(&board, Side::First, illegal),
        validate(&board, Side::First, illegal)
    );
}

#[test]
fn empty_source_is_no_piece_or_wrong_side() {
    let board = Board::empty();
    assert_eq!(
        validate(&board, Side::First, mv(4, 4, 5, 4)),
        Err(MoveError::NoPieceOrWrongSide)
    );
}

#[test]
fn opposing_piece_at_source_is_no_piece_or_wrong_side() {
    let mut board = Board::empty();
    assert!(board.place(c(6, 0), piece(PieceKind::Pawn, Side::Second)).is_ok());
    assert_eq!(
        validate(&board, Side::First, mv(6, 0, 5, 0)),
        Err(MoveError::NoPieceOrWrongSide)
    );
}

#[test]
fn off_board_destination_is_out_of_bounds() {
    let mut board = Board::empty();
    assert!(board.place(c(7, 4), piece(PieceKind::Rook, Side::First)).is_ok());
    assert_eq!(
        validate(&board, Side::First, mv(7, 4, 8, 4)),
        Err(MoveError::OutOfBounds)
    );
}

#[test]
fn standing_still_is_a_null_move() {
    let mut board = Board::empty();
    assert!(board.place(c(2, 2), piece(PieceKind::Queen, Side::First)).is_ok());
    assert_eq!(
        validate(&board, Side::First, mv(2, 2, 2, 2)),
        Err(MoveError::NullMove)
    );
}

#[test]
fn capturing_your_own_piece_is_friendly_fire() {
    let mut board = Board::empty();
    assert!(board.place(c(0, 1), piece(PieceKind::Knight, Side::First)).is_ok());
    assert!(board.place(c(2, 2), piece(PieceKind::Pawn, Side::First)).is_ok());
    assert_eq!(
        validate(&board, Side::First, mv(0, 1, 2, 2)),
        Err(MoveError::FriendlyFire)
    );
}

#[test]
fn pawn_single_step_needs_an_empty_destination() {
    let mut board = Board::empty();
    assert!(board.place(c(1, 3), piece(PieceKind::Pawn, Side::First)).is_ok());
    assert!(validate(&board, Side::First, mv(1, 3, 2, 3)).is_ok());
    assert!(board.place(c(2, 3), piece(PieceKind::Pawn, Side::Second)).is_ok());
    assert_eq!(
        validate(&board, Side::First, mv(1, 3, 2, 3)),
        Err(MoveError::ShapeInvalid)
    );
}

#[test]
fn pawn_diagonal_is_only_a_capture() {
    let mut board = Board::empty();
    assert!(board.place(c(3, 3), piece(PieceKind::Pawn, Side::First)).is_ok());
    assert_eq!(
        validate(&board, Side::First, mv(3, 3, 4, 4)),
        Err(MoveError::ShapeInvalid)
    );
    assert!(board.place(c(4, 4), piece(PieceKind::Knight, Side::Second)).is_ok());
    let verdict = validate(&board, Side::First, mv(3, 3, 4, 4)).unwrap();
    assert!(verdict.is_capture);
    assert_eq!(verdict.captured_kind, Some(PieceKind::Knight));
}

#[test]
fn second_side_pawns_advance_down_the_ranks() {
    let mut board = Board::empty();
    assert!(board.place(c(6, 2), piece(PieceKind::Pawn, Side::Second)).is_ok());
    assert!(validate(&board, Side::Second, mv(6, 2, 5, 2)).is_ok());
    assert!(validate(&board, Side::Second, mv(6, 2, 4, 2)).is_ok());
    assert_eq!(
        validate(&board, Side::Second, mv(6, 2, 7, 2)),
        Err(MoveError::ShapeInvalid)
    );
}

#[test]
fn moved_pawn_is_denied_the_double_step() {
    let mut board = Board::empty();
    let mut pawn = piece(PieceKind::Pawn, Side::First);
    pawn.has_moved = true;
    assert!(board.place(c(1, 0), pawn).is_ok());
    assert_eq!(
        validate(&board, Side::First, mv(1, 0, 3, 0)),
        Err(MoveError::ShapeInvalid)
    );
    assert!(validate(&board, Side::First, mv(1, 0, 2, 0)).is_ok());
}

#[test]
fn blocked_double_step_is_rejected() {
    let mut board = Board::empty();
    assert!(board.place(c(1, 0), piece(PieceKind::Pawn, Side::First)).is_ok());
    assert!(board.place(c(2, 0), piece(PieceKind::Bishop, Side::Second)).is_ok());
    assert_eq!(
        validate(&board, Side::First, mv(1, 0, 3, 0)),
        Err(MoveError::ShapeInvalid)
    );
}

#[test]
fn sliders_cannot_cross_an_occupied_square() {
    for blocker_side in [Side::First, Side::Second] {
        let mut board = Board::empty();
        assert!(board.place(c(0, 0), piece(PieceKind::Rook, Side::First)).is_ok());
        assert!(board.place(c(4, 4), piece(PieceKind::Bishop, Side::First)).is_ok());
        assert!(board.place(c(7, 0), piece(PieceKind::Queen, Side::First)).is_ok());
        assert!(board.place(c(0, 3), piece(PieceKind::Pawn, blocker_side)).is_ok());
        assert!(board.place(c(6, 6), piece(PieceKind::Pawn, blocker_side)).is_ok());
        assert!(board.place(c(3, 0), piece(PieceKind::Pawn, blocker_side)).is_ok());
        assert_eq!(
            validate(&board, Side::First, mv(0, 0, 0, 6)),
            Err(MoveError::ShapeInvalid)
        );
        assert_eq!(
            validate(&board, Side::First, mv(4, 4, 7, 7)),
            Err(MoveError::ShapeInvalid)
        );
        assert_eq!(
            validate(&board, Side::First, mv(7, 0, 1, 0)),
            Err(MoveError::ShapeInvalid)
        );
    }
}

#[test]
fn knight_outcome_ignores_surrounding_occupants() {
    let mut board = Board::empty();
    assert!(board.place(c(3, 3), piece(PieceKind::Knight, Side::First)).is_ok());
    let jump = mv(3, 3, 5, 4);
    let unobstructed = validate(&board, Side::First, jump);
    assert!(unobstructed.is_ok());
    for (x, y) in [(4, 3), (4, 4), (3, 4), (5, 3), (2, 3), (2, 4)] {
        assert!(board.place(c(x, y), piece(PieceKind::Pawn, Side::Second)).is_ok());
    }
    assert_eq!(validate(&board, Side::First, jump), unobstructed);
}

#[test]
fn king_single_steps_and_nothing_longer() {
    let mut board = Board::empty();
    assert!(board.place(c(4, 4), piece(PieceKind::King, Side::First)).is_ok());
    assert!(validate(&board, Side::First, mv(4, 4, 5, 5)).is_ok());
    assert!(validate(&board, Side::First, mv(4, 4, 3, 4)).is_ok());
    assert_eq!(
        validate(&board, Side::First, mv(4, 4, 6, 4)),
        Err(MoveError::ShapeInvalid)
    );
}

#[test]
fn find_king_reports_presence_and_absence() {
    let mut board = Board::empty();
    assert_eq!(board.find_king(Side::First), None);
    assert!(board.place(c(2, 6), piece(PieceKind::King, Side::First)).is_ok());
    assert_eq!(board.find_king(Side::First), Some(c(2, 6)));
    assert_eq!(board.find_king(Side::Second), None);
}

#[test]
fn rejection_descriptions_are_not_empty() {
    for reason in [
        MoveError::OutOfBounds,
        MoveError::NoPieceOrWrongSide,
        MoveError::NullMove,
        MoveError::ShapeInvalid,
        MoveError::FriendlyFire,
        MoveError::LeavesKingInCheck,
        MoveError::GameOver,
    ] {
        assert!(!reason.describe().is_empty());
    }
}
