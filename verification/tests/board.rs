use game_server::tic_tac_toe::board::{Board, BoardCell, BoardCellState, BOARD_SIZE};
use game_server::tic_tac_toe::{MoveError, Outcome};

fn board_with(moves: &[(u8, usize)]) -> Board {
    let mut board = Board::new();
    for (player_id, cell_index) in moves {
        board.add_move(*player_id, *cell_index).unwrap();
    }
    board
}

#[test]
fn determine_outcome_empty_board_in_progress() {
    let board = Board::new();

    let outcome = board.determine_outcome();
    assert_eq!(None, outcome);
}

#[test]
fn recalculate_state_partial_game_in_progress() {
    let board = board_with(&[(1, 0), (1, 4), (2, 5), (2, 8)]);

    let outcome = board.determine_outcome();
    assert_eq!(None, outcome);
}

#[test]
fn recalculate_state_win_in_first_row() {
    let board = board_with(&[(1, 0), (1, 1), (1, 2)]);

    let outcome = board.determine_outcome();
    assert_eq!(Some(Outcome::WinnerFound { player_id: 1 }), outcome);
}

#[test]
fn recalculate_state_win_in_second_row() {
    let board = board_with(&[(1, 3), (1, 4), (1, 5)]);

    let outcome = board.determine_outcome();
    assert_eq!(Some(Outcome::WinnerFound { player_id: 1 }), outcome);
}

#[test]
fn recalculate_state_win_in_third_row() {
    let board = board_with(&[(2, 6), (2, 7), (2, 8)]);

    let outcome = board.determine_outcome();
    assert_eq!(Some(Outcome::WinnerFound { player_id: 2 }), outcome);
}

#[test]
fn recalculate_state_win_in_first_column() {
    let board = board_with(&[(1, 0), (1, 3), (1, 6)]);

    let outcome = board.determine_outcome();
    assert_eq!(Some(Outcome::WinnerFound { player_id: 1 }), outcome);
}

#[test]
fn recalculate_state_win_in_second_column() {
    let board = board_with(&[(1, 1), (1, 4), (1, 7)]);

    let outcome = board.determine_outcome();
    assert_eq!(Some(Outcome::WinnerFound { player_id: 1 }), outcome);
}

#[test]
fn recalculate_state_win_in_third_column() {
    let board = board_with(&[(1, 2), (1, 5), (1, 8)]);

    let outcome = board.determine_outcome();
    assert_eq!(Some(Outcome::WinnerFound { player_id: 1 }), outcome);
}

#[test]
fn recalculate_state_win_in_left_diagonal() {
    let board = board_with(&[(1, 0), (1, 4), (1, 8)]);

    let outcome = board.determine_outcome();
    assert_eq!(Some(Outcome::WinnerFound { player_id: 1 }), outcome);
}

#[test]
fn recalculate_state_win_in_right_diagonal() {
    let board = board_with(&[(1, 2), (1, 4), (1, 6)]);

    let outcome = board.determine_outcome();
    assert_eq!(Some(Outcome::WinnerFound { player_id: 1 }), outcome);
}

#[test]
fn recalculate_state_draw() {
    let board = board_with(&[
        (1, 0),
        (2, 1),
        (1, 2),
        (2, 3),
        (1, 4),
        (2, 5),
        (2, 6),
        (1, 7),
        (2, 8),
    ]);

    let outcome = board.determine_outcome();
    assert_eq!(Some(Outcome::Draw), outcome);
}

#[test]
fn new_board_has_nine_empty_cells() {
    let board = Board::new();
    assert_eq!(BOARD_SIZE, 9);
    assert_eq!(board.get_cell_occupiers(), [None; 9]);
}

#[test]
fn add_move_marks_the_cell_for_the_player() {
    let mut board = Board::new();
    assert_eq!(board.add_move(2, 4), Ok(()));
    let mut expected = [None; 9];
    expected[4] = Some(2);
    assert_eq!(board.get_cell_occupiers(), expected);
}

#[test]
fn add_move_rejects_index_off_the_board() {
    let mut board = Board::new();
    assert_eq!(board.add_move(1, 9), Err(MoveError::InvalidCellIndex));
    assert_eq!(board.add_move(1, usize::MAX), Err(MoveError::InvalidCellIndex));
    assert_eq!(board.get_cell_occupiers(), [None; 9]);
}

#[test]
fn add_move_rejects_occupied_cell_and_keeps_the_mark() {
    let mut board = board_with(&[(1, 8)]);
    assert_eq!(board.add_move(2, 8), Err(MoveError::CellOccupied));
    assert_eq!(board.get_cell_occupiers()[8], Some(1));
}

#[test]
fn line_examined_first_decides_between_two_complete_lines() {
    let board = board_with(&[(2, 3), (2, 4), (2, 5), (1, 6), (1, 7), (1, 8)]);
    assert_eq!(
        board.determine_outcome(),
        Some(Outcome::WinnerFound { player_id: 2 })
    );
    let board = board_with(&[(2, 0), (2, 1), (2, 2), (1, 3), (1, 4), (1, 5)]);
    assert_eq!(
        board.determine_outcome(),
        Some(Outcome::WinnerFound { player_id: 2 })
    );
}

#[test]
fn full_board_with_a_line_is_a_win_not_a_draw() {
    let board = board_with(&[
        (1, 0),
        (1, 1),
        (1, 2),
        (2, 3),
        (2, 4),
        (1, 5),
        (1, 6),
        (2, 7),
        (2, 8),
    ]);
    assert_eq!(
        board.determine_outcome(),
        Some(Outcome::WinnerFound { player_id: 1 })
    );
}

#[test]
fn board_cell_reports_its_occupier() {
    let empty = BoardCell::new();
    assert!(!empty.is_occupied());
    assert_eq!(empty.state, BoardCellState::Empty);
    let taken = BoardCell {
        state: BoardCellState::Occupied { player_id: 2 },
    };
    assert!(taken.is_occupied());
    assert_eq!(taken.get_occupying_player_id(), 2);
}
