//! Game-level scenarios: the starting position, turn alternation, check,
//! checkmate, stalemate, and the rendered grid.

use chess_core::board::Board;
use chess_core::error::MoveError;
use chess_core::game::{Game, Status};
use chess_core::geometry::{Coordinate, Move};
use chess_core::piece::{Piece, PieceKind, Side};
use chess_core::validator::validate;

fn c(x: i8, y: i8) -> Coordinate {
    Coordinate { x, y }
}

fn mv(sx: i8, sy: i8, tx: i8, ty: i8) -> Move {
    Move {
        source: c(sx, sy),
        dest: c(tx, ty),
    }
}

fn put(board: &mut Board, x: i8, y: i8, kind: PieceKind, side: Side) {
    let placed = board.place(
        c(x, y),
        Piece {
            kind,
            side,
            has_moved: false,
        },
    );
    assert!(placed.is_ok());
}

#[test]
fn new_game_starts_with_the_first_side_to_move() {
    let game = Game::new();
    assert_eq!(game.turn(), Side::First);
    assert_eq!(game.status(), Status::ToMove(Side::First));
    assert!(game.history().is_empty());
}

#[test]
fn new_game_sets_up_the_standard_position() {
    let game = Game::new();
    let board = game.board();
    assert_eq!(board.find_king(Side::First), Some(c(0, 4)));
    assert_eq!(board.find_king(Side::Second), Some(c(7, 4)));
    for y in 0..8 {
        let first_pawn = board.piece_at(c(1, y)).unwrap();
        assert_eq!(first_pawn.kind, PieceKind::Pawn);
        assert_eq!(first_pawn.side, Side::First);
        assert!(!first_pawn.has_moved);
        let second_pawn = board.piece_at(c(6, y)).unwrap();
        assert_eq!(second_pawn.kind, PieceKind::Pawn);
        assert_eq!(second_pawn.side, Side::Second);
    }
    let back_rank = [
        PieceKind::Rook,
        PieceKind::Knight,
        PieceKind::Bishop,
        PieceKind::Queen,
        PieceKind::King,
        PieceKind::Bishop,
        PieceKind::Knight,
        PieceKind::Rook,
    ];
    for (y, kind) in back_rank.iter().enumerate() {
        assert_eq!(board.piece_at(c(0, y as i8)).unwrap().kind, *kind);
        assert_eq!(board.piece_at(c(7, y as i8)).unwrap().kind, *kind);
    }
    for x in 2..6 {
        for y in 0..8 {
            assert!(board.piece_at(c(x, y)).is_none());
        }
    }
}

#[test]
fn pawn_double_step_opens_the_game() {
    let mut game = Game::new();
    let outcome = game.apply(mv(1, 4, 3, 4)).unwrap();
    assert!(!outcome.is_capture);
    assert_eq!(outcome.captured_kind, None);
    assert_eq!(game.status(), Status::ToMove(Side::Second));
    assert_eq!(game.turn(), Side::Second);
    assert_eq!(game.history().len(), 1);
    let moved = game.board().piece_at(c(3, 4)).unwrap();
    assert!(moved.has_moved);
    assert!(game.board().piece_at(c(1, 4)).is_none());
}

#[test]
fn rook_through_own_pawn_is_shape_invalid() {
    let mut game = Game::new();
    assert_eq!(game.apply(mv(0, 0, 0, 4)), Err(MoveError::ShapeInvalid));
    assert_eq!(game.status(), Status::ToMove(Side::First));
    assert_eq!(game.history().len(), 0);
}

#[test]
fn accepted_moves_stay_on_the_board() {
    let game = Game::new();
    for x in 0..8 {
        for y in 0..8 {
            for destination in game.legal_moves_for(c(x, y)) {
                assert!(0 <= destination.x && destination.x < 8);
                assert!(0 <= destination.y && destination.y < 8);
                assert_ne!(destination, c(x, y));
            }
        }
    }
}

#[test]
fn pawn_loses_the_double_step_after_moving() {
    let mut game = Game::new();
    assert!(game.apply(mv(1, 4, 2, 4)).is_ok());
    assert!(game.apply(mv(6, 0, 5, 0)).is_ok());
    assert!(game.board().piece_at(c(2, 4)).unwrap().has_moved);
    assert_eq!(game.apply(mv(2, 4, 4, 4)), Err(MoveError::ShapeInvalid));
    assert!(game.apply(mv(2, 4, 3, 4)).is_ok());
}

#[test]
fn turn_alternates_and_wrong_side_is_rejected() {
    let mut game = Game::new();
    assert!(game.apply(mv(1, 0, 2, 0)).is_ok());
    assert_eq!(game.apply(mv(2, 0, 3, 0)), Err(MoveError::NoPieceOrWrongSide));
    assert!(game.apply(mv(6, 7, 5, 7)).is_ok());
    assert_eq!(game.turn(), Side::First);
}

#[test]
fn legal_moves_of_a_starting_pawn_and_knight() {
    let game = Game::new();
    assert_eq!(game.legal_moves_for(c(1, 0)), vec![c(2, 0), c(3, 0)]);
    assert_eq!(game.legal_moves_for(c(0, 1)), vec![c(2, 0), c(2, 2)]);
    assert_eq!(game.legal_moves_for(c(0, 0)), Vec::new());
    assert_eq!(game.legal_moves_for(c(4, 4)), Vec::new());
    assert_eq!(game.legal_moves_for(c(6, 0)), Vec::new());
}

#[test]
fn render_draws_the_starting_position() {
    let game = Game::new();
    let grid = game.render();
    let expected = [
        "RNBQKBNR", "PPPPPPPP", "________", "________", "________", "________", "pppppppp",
        "rnbqkbnr",
    ];
    assert_eq!(grid.len(), 8);
    for (x, want) in expected.iter().enumerate() {
        let row: String = grid[x].iter().collect();
        assert_eq!(&row, want);
    }
}

#[test]
fn king_cannot_step_onto_a_rook_covered_square() {
    let mut board = Board::empty();
    put(&mut board, 0, 0, PieceKind::King, Side::First);
    put(&mut board, 5, 1, PieceKind::Rook, Side::Second);
    put(&mut board, 7, 7, PieceKind::King, Side::Second);
    assert_eq!(
        validate(&board, Side::First, mv(0, 0, 0, 1)),
        Err(MoveError::LeavesKingInCheck)
    );
    let mut game = Game::from_position(board, Side::First);
    assert_eq!(game.status(), Status::ToMove(Side::First));
    assert_eq!(game.apply(mv(0, 0, 0, 1)), Err(MoveError::LeavesKingInCheck));
    assert_eq!(game.status(), Status::ToMove(Side::First));
    assert!(game.apply(mv(0, 0, 1, 0)).is_ok());
}

#[test]
fn a_pinned_side_must_answer_the_check() {
    let mut board = Board::empty();
    put(&mut board, 0, 0, PieceKind::King, Side::First);
    put(&mut board, 0, 7, PieceKind::Rook, Side::Second);
    put(&mut board, 5, 5, PieceKind::Rook, Side::First);
    put(&mut board, 7, 7, PieceKind::King, Side::Second);
    let mut game = Game::from_position(board, Side::First);
    assert_eq!(game.status(), Status::Check(Side::First));
    assert_eq!(game.apply(mv(0, 0, 0, 1)), Err(MoveError::LeavesKingInCheck));
    assert!(game.apply(mv(0, 0, 1, 0)).is_ok());
    assert_eq!(game.status(), Status::ToMove(Side::Second));
}

#[test]
fn back_rank_mate_ends_the_game() {
    let mut board = Board::empty();
    put(&mut board, 0, 0, PieceKind::King, Side::First);
    put(&mut board, 1, 0, PieceKind::Pawn, Side::First);
    put(&mut board, 1, 1, PieceKind::Pawn, Side::First);
    put(&mut board, 5, 7, PieceKind::Rook, Side::Second);
    put(&mut board, 7, 4, PieceKind::King, Side::Second);
    let mut game = Game::from_position(board, Side::Second);
    assert_eq!(game.status(), Status::ToMove(Side::Second));
    assert!(game.apply(mv(5, 7, 0, 7)).is_ok());
    assert_eq!(game.status(), Status::Checkmate(Side::First));
    assert_eq!(game.legal_moves_for(c(0, 0)), Vec::new());
    assert_eq!(game.apply(mv(0, 0, 1, 0)), Err(MoveError::GameOver));
    assert_eq!(game.apply(mv(1, 0, 2, 0)), Err(MoveError::GameOver));
    assert_eq!(game.status(), Status::Checkmate(Side::First));
}

#[test]
fn a_cornered_king_with_no_moves_is_stalemate() {
    let mut board = Board::empty();
    put(&mut board, 0, 0, PieceKind::King, Side::First);
    put(&mut board, 2, 1, PieceKind::Queen, Side::Second);
    put(&mut board, 7, 7, PieceKind::King, Side::Second);
    let mut game = Game::from_position(board, Side::First);
    assert_eq!(game.status(), Status::Stalemate);
    assert_eq!(game.apply(mv(0, 0, 1, 0)), Err(MoveError::GameOver));
}

#[test]
fn capture_removes_the_victim_and_reports_its_kind() {
    let mut board = Board::empty();
    put(&mut board, 0, 0, PieceKind::King, Side::First);
    put(&mut board, 7, 7, PieceKind::King, Side::Second);
    put(&mut board, 3, 3, PieceKind::Rook, Side::First);
    put(&mut board, 3, 6, PieceKind::Knight, Side::Second);
    let mut game = Game::from_position(board, Side::First);
    let outcome = game.apply(mv(3, 3, 3, 6)).unwrap();
    assert!(outcome.is_capture);
    assert_eq!(outcome.captured_kind, Some(PieceKind::Knight));
    let survivor = game.board().piece_at(c(3, 6)).unwrap();
    assert_eq!(survivor.kind, PieceKind::Rook);
    assert_eq!(survivor.side, Side::First);
    assert!(game.board().piece_at(c(3, 3)).is_none());
    assert_eq!(game.history(), &vec![mv(3, 3, 3, 6)]);
}
