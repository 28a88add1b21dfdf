use connect_four::cells::{Cell, PlayerId};
use connect_four::grid::Grid;
use connect_four::win::find_winner;

fn grid_with(player: PlayerId, cells: &[(usize, usize)]) -> Grid {
    let mut g = Grid::new(6, 7);
    for &(r, c) in cells {
        g.set(r, c, Cell::Occupied(player)).unwrap();
    }
    g
}

#[test]
fn horizontal_four_wins() {
    let g = grid_with(PlayerId::Player1, &[(0, 0), (0, 1), (0, 2), (0, 3)]);
    assert_eq!(find_winner(&g), Some(PlayerId::Player1));
}

#[test]
fn vertical_four_wins() {
    let g = grid_with(PlayerId::Player1, &[(0, 0), (1, 0), (2, 0), (3, 0)]);
    assert_eq!(find_winner(&g), Some(PlayerId::Player1));
}

#[test]
fn rising_diagonal_four_wins() {
    let g = grid_with(PlayerId::Player1, &[(0, 0), (1, 1), (2, 2), (3, 3)]);
    assert_eq!(find_winner(&g), Some(PlayerId::Player1));
}

#[test]
fn falling_diagonal_four_wins() {
    let g = grid_with(PlayerId::Player1, &[(0, 3), (1, 2), (2, 1), (3, 0)]);
    assert_eq!(find_winner(&g), Some(PlayerId::Player1));
}

#[test]
fn second_player_four_wins_too() {
    let g = grid_with(PlayerId::Player2, &[(2, 1), (2, 2), (2, 3), (2, 4)]);
    assert_eq!(find_winner(&g), Some(PlayerId::Player2));
}

#[test]
fn broken_run_of_three_is_no_win() {
    let mut g = grid_with(PlayerId::Player1, &[(0, 0), (0, 1), (0, 2)]);
    g.set(0, 3, Cell::Occupied(PlayerId::Player2)).unwrap();
    assert_eq!(find_winner(&g), None);
}

#[test]
fn empty_grid_has_no_winner() {
    let g = Grid::new(6, 7);
    assert_eq!(find_winner(&g), None);
}

#[test]
fn three_in_every_orientation_is_no_win() {
    let g = grid_with(
        PlayerId::Player1,
        &[(0, 0), (0, 1), (0, 2), (1, 0), (2, 0), (1, 1), (2, 2)],
    );
    assert_eq!(find_winner(&g), None);
}

#[test]
fn win_high_in_the_corner_is_found() {
    let g = grid_with(PlayerId::Player2, &[(5, 3), (5, 4), (5, 5), (5, 6)]);
    assert_eq!(find_winner(&g), Some(PlayerId::Player2));
}
