use connect_four::cells::{Cell, GameError, PlayerId};
use connect_four::engine::{GameEngine, GameStatus, MoveOutcome};

fn snapshot(e: &GameEngine) -> Vec<Vec<Cell>> {
    let (rows, cols) = e.dimensions();
    let mut out = Vec::new();
    for r in 0..rows {
        let mut row = Vec::new();
        for c in 0..cols {
            row.push(e.cell_at(r, c).unwrap());
        }
        out.push(row);
    }
    out
}

/// Plays the given columns in order, alternating players starting with
/// `Player1`, and expects every move to succeed.
fn play_all(e: &mut GameEngine, columns: &[usize]) -> Vec<MoveOutcome> {
    let mut outcomes = Vec::new();
    for &c in columns {
        let mover = e.current_turn();
        outcomes.push(e.attempt_move(mover, c).unwrap());
    }
    outcomes
}

#[test]
fn new_engine_starts_empty_with_player1_to_move() {
    let e = GameEngine::new(6, 7);
    assert_eq!(e.dimensions(), (6, 7));
    assert_eq!(e.status(), GameStatus::Playing);
    assert_eq!(e.current_turn(), PlayerId::Player1);
    for row in snapshot(&e) {
        for cell in row {
            assert_eq!(cell, Cell::Empty);
        }
    }
}

#[test]
fn default_engine_is_six_by_seven() {
    let e = GameEngine::default();
    assert_eq!(e.dimensions(), (6, 7));
    assert_eq!(e.status(), GameStatus::Playing);
    assert_eq!(e.current_turn(), PlayerId::Player1);
}

#[test]
fn successful_move_changes_exactly_one_cell_to_the_mover() {
    let mut e = GameEngine::new(6, 7);
    play_all(&mut e, &[3, 3, 2]);
    let before = snapshot(&e);
    let mover = e.current_turn();
    assert_eq!(e.attempt_move(mover, 3), Ok(MoveOutcome::Continue));
    let after = snapshot(&e);
    let mut diffs = Vec::new();
    for r in 0..6 {
        for c in 0..7 {
            if before[r][c] != after[r][c] {
                diffs.push((r, c));
            }
        }
    }
    assert_eq!(diffs, vec![(2, 3)]);
    assert_eq!(before[2][3], Cell::Empty);
    assert_eq!(after[2][3], Cell::Occupied(mover));
}

#[test]
fn turn_alternates_between_successful_moves() {
    let mut e = GameEngine::new(6, 7);
    assert_eq!(e.current_turn(), PlayerId::Player1);
    assert_eq!(e.attempt_move(PlayerId::Player1, 0), Ok(MoveOutcome::Continue));
    assert_eq!(e.current_turn(), PlayerId::Player2);
    assert_eq!(e.attempt_move(PlayerId::Player2, 1), Ok(MoveOutcome::Continue));
    assert_eq!(e.current_turn(), PlayerId::Player1);
}

#[test]
fn move_by_wrong_player_is_rejected_and_grid_unchanged() {
    let mut e = GameEngine::new(6, 7);
    play_all(&mut e, &[3]);
    let before = snapshot(&e);
    let before_turn = e.current_turn();
    assert_eq!(before_turn, PlayerId::Player2);
    assert_eq!(
        e.attempt_move(PlayerId::Player1, 0),
        Err(GameError::NotPlayersTurn)
    );
    assert_eq!(snapshot(&e), before);
    assert_eq!(e.current_turn(), before_turn);
    assert_eq!(e.status(), GameStatus::Playing);
}

#[test]
fn move_into_full_column_is_rejected_without_effect() {
    let mut e = GameEngine::new(6, 7);
    play_all(&mut e, &[2, 2, 2, 2, 2, 2]);
    let before = snapshot(&e);
    let mover = e.current_turn();
    assert_eq!(e.attempt_move(mover, 2), Err(GameError::ColumnFullError));
    assert_eq!(snapshot(&e), before);
    assert_eq!(e.current_turn(), mover);
}

#[test]
fn move_out_of_range_is_rejected_without_effect() {
    let mut e = GameEngine::new(6, 7);
    let before = snapshot(&e);
    assert_eq!(
        e.attempt_move(PlayerId::Player1, 7),
        Err(GameError::BoundsError)
    );
    assert_eq!(snapshot(&e), before);
    assert_eq!(e.current_turn(), PlayerId::Player1);
}

#[test]
fn vertical_win_ends_the_game() {
    let mut e = GameEngine::new(6, 7);
    // Player1 stacks column 0; Player2 stacks column 1.
    let outcomes = play_all(&mut e, &[0, 1, 0, 1, 0, 1, 0]);
    assert_eq!(outcomes.last(), Some(&MoveOutcome::Win));
    assert_eq!(e.status(), GameStatus::Won(PlayerId::Player1));
}

#[test]
fn horizontal_win_ends_the_game() {
    let mut e = GameEngine::new(6, 7);
    // Player1 walks along the bottom row; Player2 stacks on top.
    let outcomes = play_all(&mut e, &[0, 0, 1, 1, 2, 2, 3]);
    assert_eq!(outcomes.last(), Some(&MoveOutcome::Win));
    assert_eq!(e.status(), GameStatus::Won(PlayerId::Player1));
}

#[test]
fn move_after_game_over_is_rejected() {
    let mut e = GameEngine::new(6, 7);
    play_all(&mut e, &[0, 1, 0, 1, 0, 1, 0]);
    assert_eq!(e.status(), GameStatus::Won(PlayerId::Player1));
    let before = snapshot(&e);
    assert_eq!(
        e.attempt_move(e.current_turn(), 3),
        Err(GameError::GameAlreadyOver)
    );
    assert_eq!(snapshot(&e), before);
}

#[test]
fn filling_the_grid_without_a_line_is_a_draw() {
    let mut e = GameEngine::new(6, 7);
    // A complete 42-move game in which neither player ever lines up four.
    let columns = [
        5, 3, 2, 3, 1, 5, 3, 1, 0, 1, 4, 1, 2, 5, 0, 5, 6, 6, 2, 0, 6,
        0, 4, 2, 3, 0, 3, 4, 2, 3, 2, 6, 0, 4, 1, 1, 5, 4, 4, 5, 6, 6,
    ];
    let outcomes = play_all(&mut e, &columns);
    for outcome in &outcomes[..outcomes.len() - 1] {
        assert_eq!(*outcome, MoveOutcome::Continue);
    }
    assert_eq!(outcomes.last(), Some(&MoveOutcome::Draw));
    assert_eq!(e.status(), GameStatus::Draw);
    for row in snapshot(&e) {
        for cell in row {
            assert_ne!(cell, Cell::Empty);
        }
    }
}

#[test]
fn reset_after_win_restores_the_initial_state() {
    let mut e = GameEngine::new(6, 7);
    play_all(&mut e, &[0, 1, 0, 1, 0, 1, 0]);
    assert_eq!(e.status(), GameStatus::Won(PlayerId::Player1));
    e.reset();
    assert_eq!(e.status(), GameStatus::Playing);
    assert_eq!(e.current_turn(), PlayerId::Player1);
    assert_eq!(e.dimensions(), (6, 7));
    for row in snapshot(&e) {
        for cell in row {
            assert_eq!(cell, Cell::Empty);
        }
    }
}

#[test]
fn reset_after_draw_restores_the_initial_state() {
    let mut e = GameEngine::new(6, 7);
    let columns = [
        5, 3, 2, 3, 1, 5, 3, 1, 0, 1, 4, 1, 2, 5, 0, 5, 6, 6, 2, 0, 6,
        0, 4, 2, 3, 0, 3, 4, 2, 3, 2, 6, 0, 4, 1, 1, 5, 4, 4, 5, 6, 6,
    ];
    play_all(&mut e, &columns);
    assert_eq!(e.status(), GameStatus::Draw);
    e.reset();
    assert_eq!(e.status(), GameStatus::Playing);
    assert_eq!(e.current_turn(), PlayerId::Player1);
    for row in snapshot(&e) {
        for cell in row {
            assert_eq!(cell, Cell::Empty);
        }
    }
}

#[test]
fn pieces_stack_upward_in_a_column() {
    let mut e = GameEngine::new(6, 7);
    play_all(&mut e, &[4, 4, 4]);
    assert_eq!(e.cell_at(0, 4), Ok(Cell::Occupied(PlayerId::Player1)));
    assert_eq!(e.cell_at(1, 4), Ok(Cell::Occupied(PlayerId::Player2)));
    assert_eq!(e.cell_at(2, 4), Ok(Cell::Occupied(PlayerId::Player1)));
    assert_eq!(e.cell_at(3, 4), Ok(Cell::Empty));
}

#[test]
fn rising_diagonal_win_through_play() {
    let mut e = GameEngine::new(6, 7);
    // Builds a rising diagonal for Player1 at (0,0),(1,1),(2,2),(3,3).
    let outcomes = play_all(&mut e, &[0, 1, 1, 2, 3, 2, 2, 3, 3, 5, 3]);
    assert_eq!(outcomes.last(), Some(&MoveOutcome::Win));
    assert_eq!(e.status(), GameStatus::Won(PlayerId::Player1));
}
