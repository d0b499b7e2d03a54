use tic_tac_toe::board::{BoardState, Game};

const EMPTY_BOARD: &str = "  A B C \n ┌─┬─┬─┐\n1│ │ │ │\n ├─┼─┼─┤\n2│ │ │ │\n ├─┼─┼─┤\n3│ │ │ │\n └─┴─┴─┘\n";

#[test]
fn new_game_is_empty_and_in_progress() {
    let mut game = Game::new();
    assert_eq!(game.get_board(), EMPTY_BOARD);
    assert!(!game.check());
    assert_eq!(game.get_winner(), "Nobody");
}

#[test]
fn cell_text_maps_marks_and_space() {
    assert_eq!(BoardState::X.to_string(), "X");
    assert_eq!(BoardState::O.to_string(), "O");
    assert_eq!(BoardState::Empty.to_string(), " ");
}

#[test]
fn parse_location_maps_all_nine_cells() {
    assert_eq!(Game::parse_location(&String::from("A1")), Some(0));
    assert_eq!(Game::parse_location(&String::from("B1")), Some(1));
    assert_eq!(Game::parse_location(&String::from("C1")), Some(2));
    assert_eq!(Game::parse_location(&String::from("A2")), Some(3));
    assert_eq!(Game::parse_location(&String::from("B2")), Some(4));
    assert_eq!(Game::parse_location(&String::from("C2")), Some(5));
    assert_eq!(Game::parse_location(&String::from("A3")), Some(6));
    assert_eq!(Game::parse_location(&String::from("B3")), Some(7));
    assert_eq!(Game::parse_location(&String::from("C3")), Some(8));
}

#[test]
fn parse_location_rejects_bad_labels() {
    assert_eq!(Game::parse_location(&String::from("D1")), None);
    assert_eq!(Game::parse_location(&String::from("A4")), None);
    assert_eq!(Game::parse_location(&String::from("")), None);
    assert_eq!(Game::parse_location(&String::from("1A")), None);
    assert_eq!(Game::parse_location(&String::from("A")), None);
    assert_eq!(Game::parse_location(&String::from("a1")), None);
}

#[test]
fn parse_location_ignores_trailing_characters() {
    assert_eq!(Game::parse_location(&String::from("A1\n")), Some(0));
    assert_eq!(Game::parse_location(&String::from("B3 extra")), Some(7));
}

#[test]
fn top_row_win_reports_x() {
    let mut game = Game::new();
    game.mark(0, BoardState::X);
    game.mark(1, BoardState::X);
    game.mark(2, BoardState::X);
    assert!(game.check());
    assert_eq!(game.get_winner(), "X");
}

#[test]
fn column_win_reports_o() {
    let mut game = Game::new();
    game.mark(0, BoardState::O);
    game.mark(3, BoardState::O);
    game.mark(6, BoardState::O);
    assert!(game.check());
    assert_eq!(game.get_winner(), "O");
}

#[test]
fn anti_diagonal_win_reports_x() {
    let mut game = Game::new();
    game.mark(2, BoardState::X);
    game.mark(4, BoardState::X);
    game.mark(6, BoardState::X);
    assert!(game.check());
    assert_eq!(game.get_winner(), "X");
}

#[test]
fn main_diagonal_win_reports_x() {
    let mut game = Game::new();
    // X on the main diagonal, the rest filled so that no row, column
    // or anti-diagonal completes: X O O / O X X / O X X.
    game.mark(0, BoardState::X);
    game.mark(4, BoardState::X);
    game.mark(8, BoardState::X);
    game.mark(1, BoardState::O);
    game.mark(2, BoardState::O);
    game.mark(3, BoardState::O);
    game.mark(6, BoardState::O);
    game.mark(5, BoardState::X);
    game.mark(7, BoardState::X);
    assert!(game.check());
    assert_eq!(game.get_winner(), "X");
}

#[test]
fn rows_are_scanned_before_later_lines() {
    // Both the top row (X) and the bottom row (O) are complete; the
    // scan reports the top row first.
    let mut game = Game::new();
    game.mark(0, BoardState::X);
    game.mark(1, BoardState::X);
    game.mark(2, BoardState::X);
    game.mark(6, BoardState::O);
    game.mark(7, BoardState::O);
    game.mark(8, BoardState::O);
    assert!(game.check());
    assert_eq!(game.get_winner(), "X");
}

#[test]
fn full_board_without_line_is_tie() {
    // X O X / X O O / O X X: no three in a row for either player.
    let mut game = Game::new();
    game.mark(0, BoardState::X);
    game.mark(1, BoardState::O);
    game.mark(2, BoardState::X);
    game.mark(3, BoardState::X);
    game.mark(4, BoardState::O);
    game.mark(5, BoardState::O);
    game.mark(6, BoardState::O);
    game.mark(7, BoardState::X);
    game.mark(8, BoardState::X);
    assert!(game.check());
    assert_eq!(game.get_winner(), "Nobody");
}

#[test]
fn partial_board_without_line_is_in_progress() {
    let mut game = Game::new();
    game.mark(0, BoardState::X);
    game.mark(4, BoardState::O);
    assert!(!game.check());
    assert_eq!(game.get_winner(), "Nobody");
}

#[test]
fn take_turn_fills_the_last_empty_cell() {
    // Every cell but index 5 is filled; the random draw has a single
    // empty cell to land on.
    let mut game = Game::new();
    let mut expected = Game::new();
    for &(index, state) in &[
        (0, BoardState::X),
        (1, BoardState::O),
        (2, BoardState::X),
        (3, BoardState::X),
        (4, BoardState::O),
        (6, BoardState::O),
        (7, BoardState::X),
        (8, BoardState::O),
    ] {
        game.mark(index, state);
        expected.mark(index, state);
    }
    expected.mark(5, BoardState::O);
    game.take_turn();
    assert_eq!(game.get_board(), expected.get_board());
}

#[test]
fn take_turn_reaches_the_bottom_right_cell() {
    let mut game = Game::new();
    let mut expected = Game::new();
    for index in 0..8 {
        let state = if index % 2 == 0 { BoardState::X } else { BoardState::O };
        game.mark(index, state);
        expected.mark(index, state);
    }
    expected.mark(8, BoardState::O);
    game.take_turn();
    assert_eq!(game.get_board(), expected.get_board());
}

#[test]
fn take_turn_marks_exactly_one_cell_with_o() {
    let mut game = Game::new();
    game.take_turn();
    let rendered = game.get_board();
    assert_eq!(rendered.matches('O').count(), 1);
    assert_eq!(rendered.matches('X').count(), 0);
}

#[test]
fn rendering_depends_on_cells_alone() {
    let mut first = Game::new();
    first.mark(4, BoardState::X);
    first.mark(0, BoardState::O);
    let mut second = Game::new();
    second.mark(0, BoardState::X);
    second.mark(4, BoardState::X);
    second.mark(0, BoardState::O);
    assert_eq!(first.get_board(), second.get_board());
}

#[test]
fn rendering_shows_marks_at_their_cells() {
    let mut game = Game::new();
    game.mark(0, BoardState::X);
    game.mark(4, BoardState::O);
    game.mark(8, BoardState::X);
    let expected = "  A B C \n ┌─┬─┬─┐\n1│X│ │ │\n ├─┼─┼─┤\n2│ │O│ │\n ├─┼─┼─┤\n3│ │ │X│\n └─┴─┴─┘\n";
    assert_eq!(game.get_board(), expected);
}

#[test]
fn marking_a_cell_twice_keeps_the_later_mark() {
    let mut game = Game::new();
    game.mark(0, BoardState::X);
    game.mark(0, BoardState::O);
    let expected = "  A B C \n ┌─┬─┬─┐\n1│O│ │ │\n ├─┼─┼─┤\n2│ │ │ │\n ├─┼─┼─┤\n3│ │ │ │\n └─┴─┴─┘\n";
    assert_eq!(game.get_board(), expected);
}
