use tic_tac_toe::board::{Board, GameOver, Player};
use tic_tac_toe::digit::{from_row_col, to_row_col};
use tic_tac_toe::input::{decide_move, MoveDecision};

#[test]
fn digit_round_trip_from_digit() {
    for d in 1u8..=9 {
        let (row, col) = to_row_col(d).unwrap();
        assert_eq!(from_row_col(row, col), Some(d));
    }
}

#[test]
fn digit_round_trip_from_cell() {
    for row in 0usize..3 {
        for col in 0usize..3 {
            let d = from_row_col(row, col).unwrap();
            assert_eq!(to_row_col(d), Some((row, col)));
        }
    }
}

#[test]
fn digit_numpad_layout() {
    assert_eq!(to_row_col(7), Some((0, 0)));
    assert_eq!(to_row_col(8), Some((0, 1)));
    assert_eq!(to_row_col(9), Some((0, 2)));
    assert_eq!(to_row_col(4), Some((1, 0)));
    assert_eq!(to_row_col(5), Some((1, 1)));
    assert_eq!(to_row_col(6), Some((1, 2)));
    assert_eq!(to_row_col(1), Some((2, 0)));
    assert_eq!(to_row_col(2), Some((2, 1)));
    assert_eq!(to_row_col(3), Some((2, 2)));
}

#[test]
fn digit_domain() {
    assert_eq!(to_row_col(0), None);
    assert_eq!(to_row_col(10), None);
    assert_eq!(to_row_col(255), None);
    assert_eq!(from_row_col(3, 0), None);
    assert_eq!(from_row_col(0, 3), None);
    assert_eq!(from_row_col(17, 17), None);
}

#[test]
fn fresh_board_is_empty_and_in_progress() {
    let board = Board::new();
    assert_eq!(board.game_outcome(), None);
    for row in 0..3 {
        for col in 0..3 {
            assert_eq!(board.get(row, col), None);
        }
    }
}

#[test]
fn set_returns_previous_occupant() {
    let mut board = Board::new();
    let prev = board.set(1, 2, Player::X);
    assert_eq!(prev, None);
    assert_eq!(board.get(1, 2), Some(Player::X));
    let prev = board.set(1, 2, Player::O);
    assert_eq!(prev, Some(Player::X));
    assert_eq!(board.get(1, 2), Some(Player::O));
}

#[test]
fn set_leaves_other_cells_alone() {
    let mut board = Board::new();
    board.set(0, 0, Player::O);
    for row in 0..3 {
        for col in 0..3 {
            if (row, col) != (0, 0) {
                assert_eq!(board.get(row, col), None);
            }
        }
    }
}

#[test]
fn row_win() {
    let mut board = Board::new();
    board.set(0, 0, Player::X);
    board.set(0, 1, Player::X);
    assert_eq!(board.game_outcome(), None);
    board.set(0, 2, Player::X);
    assert_eq!(board.game_outcome(), Some(GameOver::Winner(Player::X)));
}

#[test]
fn column_win() {
    let mut board = Board::new();
    board.set(0, 1, Player::O);
    board.set(1, 1, Player::O);
    board.set(2, 1, Player::O);
    assert_eq!(board.game_outcome(), Some(GameOver::Winner(Player::O)));
}

#[test]
fn main_diagonal_win() {
    let mut board = Board::new();
    board.set(0, 0, Player::X);
    board.set(1, 1, Player::X);
    board.set(2, 2, Player::X);
    assert_eq!(board.game_outcome(), Some(GameOver::Winner(Player::X)));
}

#[test]
fn cross_diagonal_win() {
    let mut board = Board::new();
    board.set(0, 2, Player::O);
    board.set(1, 1, Player::O);
    board.set(2, 0, Player::O);
    assert_eq!(board.game_outcome(), Some(GameOver::Winner(Player::O)));
}

#[test]
fn tie_on_full_board_without_a_line() {
    // X O X
    // X O O
    // O X X
    let mut board = Board::new();
    board.set(0, 0, Player::X);
    board.set(0, 1, Player::O);
    board.set(0, 2, Player::X);
    board.set(1, 0, Player::X);
    board.set(1, 1, Player::O);
    board.set(1, 2, Player::O);
    board.set(2, 0, Player::O);
    board.set(2, 1, Player::X);
    board.set(2, 2, Player::X);
    assert_eq!(board.game_outcome(), Some(GameOver::Tie));
}

#[test]
fn game_outcome_is_idempotent() {
    let mut board = Board::new();
    assert_eq!(board.game_outcome(), board.game_outcome());
    board.set(0, 0, Player::X);
    board.set(1, 1, Player::X);
    board.set(2, 2, Player::X);
    let first = board.game_outcome();
    let second = board.game_outcome();
    assert_eq!(first, Some(GameOver::Winner(Player::X)));
    assert_eq!(first, second);
}

#[test]
fn playable_digits_rendering_of_empty_board() {
    let board = Board::new();
    let expected = "7|8|9\n-+-+-\n4|5|6\n-+-+-\n1|2|3";
    assert_eq!(board.display_playable_digits().render(), expected);
}

#[test]
fn playable_digits_rendering_blanks_occupied_cells() {
    let mut board = Board::new();
    board.set(1, 1, Player::X);
    let expected = "7|8|9\n-+-+-\n4| |6\n-+-+-\n1|2|3";
    assert_eq!(board.display_playable_digits().render(), expected);
}

#[test]
fn plain_rendering() {
    let mut board = Board::new();
    assert_eq!(board.render(), " | | \n-+-+-\n | | \n-+-+-\n | | ");
    board.set(0, 0, Player::X);
    board.set(1, 1, Player::O);
    assert_eq!(board.render(), "X| | \n-+-+-\n |O| \n-+-+-\n | | ");
}

#[test]
fn player_labels() {
    assert_eq!(Player::X.to_char(), 'X');
    assert_eq!(Player::O.to_char(), 'O');
}

#[test]
fn decide_move_on_empty_line() {
    let board = Board::new();
    assert_eq!(decide_move(b"", &board), MoveDecision::Empty);
}

#[test]
fn decide_move_on_non_digit_input() {
    let board = Board::new();
    assert_eq!(decide_move(b"x", &board), MoveDecision::NotADigit);
    assert_eq!(decide_move(b"12", &board), MoveDecision::NotADigit);
    assert_eq!(decide_move(b"!", &board), MoveDecision::NotADigit);
}

#[test]
fn decide_move_on_zero() {
    let board = Board::new();
    assert_eq!(decide_move(b"0", &board), MoveDecision::OutOfRange);
}

#[test]
fn decide_move_on_occupied_square() {
    let mut board = Board::new();
    board.set(1, 1, Player::O);
    assert_eq!(decide_move(b"5", &board), MoveDecision::Occupied(Player::O));
}

#[test]
fn decide_move_on_legal_move() {
    let board = Board::new();
    assert_eq!(decide_move(b"7", &board), MoveDecision::Play(0, 0));
    assert_eq!(decide_move(b"5", &board), MoveDecision::Play(1, 1));
    assert_eq!(decide_move(b"3", &board), MoveDecision::Play(2, 2));
}
