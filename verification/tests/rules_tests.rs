use checkers::Board;
use checkers::Cell;
use checkers::Coords;
use checkers::Game;
use checkers::Move;
use checkers::ParseError;
use checkers::RuleViolation;
use checkers::TurnError;
use checkers::can_move;
use checkers::make_move;
use checkers::play_turn;

fn mv(ri: u8, ci: u8, rt: u8, ct: u8) -> Move {
    Move {
        initial_pos: Coords { row: ri, column: ci },
        target_pos: Coords { row: rt, column: ct },
    }
}

#[test]
fn get_cell_test() {
    let board = Board::new();
    assert_eq!(Cell::Empty, board.get_cell(0, 0));
    assert_eq!(Cell::Black, board.get_cell(0, 1));
    assert_eq!(Cell::White, board.get_cell(5, 4));
    assert_eq!(Cell::White, board.get_cell(7, 0));
}

#[test]
fn initial_layout_rows() {
    let board = Board::new();
    assert_eq!(Cell::Black, board.get_cell(1, 0));
    assert_eq!(Cell::Black, board.get_cell(2, 7));
    assert_eq!(Cell::Empty, board.get_cell(3, 3));
    assert_eq!(Cell::Empty, board.get_cell(4, 4));
    assert_eq!(Cell::White, board.get_cell(6, 1));
    assert_eq!(Cell::Empty, board.get_cell(6, 2));
    assert_eq!(Cell::Empty, board.get_cell(7, 7));
}

#[test]
fn game_new_starts_fresh() {
    let game = Game::new("one".to_string(), "two".to_string());
    assert_eq!(false, game.is_over);
    assert!(game.winner.is_none());
    assert_eq!("one", game.player_w);
    assert_eq!("two", game.player_b);
    assert_eq!(Cell::Black, game.board.get_cell(0, 1));
    assert_eq!(Cell::White, game.board.get_cell(7, 0));
}

#[test]
fn can_move_test_black() {
    let board = Board::new();
    let proposed_move = mv(2, 1, 3, 0);
    let result = can_move(&board, &proposed_move, &false);
    assert_eq!(Ok(()), result);
}

#[test]
fn can_move_test_err() {
    let board = Board::new();
    // b3 b4
    let proposed_move = mv(2, 1, 3, 1);
    let result = can_move(&board, &proposed_move, &false);
    assert_eq!(Err(RuleViolation::InvalidMove), result);
}

#[test]
fn can_move_test_white() {
    let board = Board::new();
    let proposed_move = mv(5, 2, 4, 1);
    let result = can_move(&board, &proposed_move, &true);
    assert_eq!(Ok(()), result);
}

#[test]
fn can_move_test_empty_start() {
    let board = Board::new();
    let proposed_move = mv(5, 1, 4, 0);
    let result = can_move(&board, &proposed_move, &true);
    assert_eq!(Err(RuleViolation::EmptySource), result);
}

#[test]
fn can_move_test_nonempty_finish() {
    let board = Board::new();
    let proposed_move = mv(6, 1, 5, 2);
    let result = can_move(&board, &proposed_move, &true);
    assert_eq!(Err(RuleViolation::OccupiedTarget), result);
}

#[test]
fn can_move_wrong_turn() {
    let board = Board::new();
    assert_eq!(
        Err(RuleViolation::WrongTurn),
        can_move(&board, &mv(5, 2, 4, 1), &false)
    );
    assert_eq!(
        Err(RuleViolation::WrongTurn),
        can_move(&board, &mv(2, 1, 3, 0), &true)
    );
}

#[test]
fn can_move_backward_step_rejected() {
    let mut board = Board::new();
    // A white piece may not step toward row 7.
    board.set_cell(3, 2, Cell::White);
    assert_eq!(
        Err(RuleViolation::InvalidMove),
        can_move(&board, &mv(3, 2, 4, 3), &true)
    );
    // A black piece may not step toward row 0.
    board.set_cell(4, 3, Cell::Black);
    assert_eq!(
        Err(RuleViolation::InvalidMove),
        can_move(&board, &mv(4, 3, 3, 4), &false)
    );
}

#[test]
fn can_move_non_diagonal_rejected() {
    let board = Board::new();
    assert_eq!(
        Err(RuleViolation::InvalidMove),
        can_move(&board, &mv(5, 2, 3, 2), &true)
    );
    assert_eq!(
        Err(RuleViolation::InvalidMove),
        can_move(&board, &mv(6, 1, 3, 4), &true)
    );
}

#[test]
fn capture_over_opponent_is_legal() {
    let mut board = Board::new();
    board.set_cell(4, 1, Cell::Black);
    assert_eq!(Ok(()), can_move(&board, &mv(5, 2, 3, 0), &true));

    let mut board = Board::new();
    board.set_cell(3, 2, Cell::White);
    assert_eq!(Ok(()), can_move(&board, &mv(2, 1, 4, 3), &false));
}

#[test]
fn capture_over_own_piece_rejected() {
    let mut board = Board::new();
    board.set_cell(4, 1, Cell::White);
    assert_eq!(
        Err(RuleViolation::InvalidCapture),
        can_move(&board, &mv(5, 2, 3, 0), &true)
    );
}

#[test]
fn capture_over_empty_square_rejected() {
    let board = Board::new();
    assert_eq!(
        Err(RuleViolation::InvalidCapture),
        can_move(&board, &mv(5, 2, 3, 0), &true)
    );
}

#[test]
fn capture_backward_rejected() {
    let mut board = Board::new();
    board.set_cell(3, 1, Cell::White);
    board.set_cell(4, 2, Cell::Black);
    // The jump from (3,1) over (4,2) heads toward row 7: backward for White.
    assert_eq!(
        Err(RuleViolation::InvalidCapture),
        can_move(&board, &mv(3, 1, 5, 3), &true)
    );
}

#[test]
fn queens_move_by_their_colour() {
    let mut board = Board::new();
    board.set_cell(5, 2, Cell::WhiteQueen);
    assert_eq!(Ok(()), can_move(&board, &mv(5, 2, 4, 1), &true));
    assert_eq!(
        Err(RuleViolation::WrongTurn),
        can_move(&board, &mv(5, 2, 4, 1), &false)
    );

    let mut board = Board::new();
    board.set_cell(4, 1, Cell::BlackQueen);
    assert_eq!(Ok(()), can_move(&board, &mv(5, 2, 3, 0), &true));
}

#[test]
fn make_move_swaps_the_two_cells() {
    let mut board = Board::new();
    assert_eq!(Ok(()), make_move(&mut board, &mv(5, 2, 4, 1)));
    assert_eq!(Cell::Empty, board.get_cell(5, 2));
    assert_eq!(Cell::White, board.get_cell(4, 1));
    assert_eq!(Cell::White, board.get_cell(5, 0));
}

#[test]
fn make_move_clears_the_jumped_cell() {
    let mut board = Board::new();
    board.set_cell(4, 1, Cell::Black);
    assert_eq!(Ok(()), make_move(&mut board, &mv(5, 2, 3, 0)));
    assert_eq!(Cell::Empty, board.get_cell(5, 2));
    assert_eq!(Cell::White, board.get_cell(3, 0));
    assert_eq!(Cell::Empty, board.get_cell(4, 1));
}

#[test]
fn simple_move_round_trip_restores_the_board() {
    let mut board = Board::new();
    let there = mv(5, 2, 4, 1);
    let back = mv(4, 1, 5, 2);
    make_move(&mut board, &there).unwrap();
    make_move(&mut board, &back).unwrap();
    let fresh = Board::new();
    for r in 0..8u8 {
        for c in 0..8u8 {
            assert_eq!(fresh.get_cell(r, c), board.get_cell(r, c));
        }
    }
}

#[test]
fn play_turn_applies_and_flips() {
    let mut board = Board::new();
    let next = play_turn(&mut board, true, "c6 b5".to_string()).unwrap();
    assert_eq!(false, next);
    assert_eq!(Cell::Empty, board.get_cell(5, 2));
    assert_eq!(Cell::White, board.get_cell(4, 1));
}

#[test]
fn play_turn_rejects_and_keeps_the_turn() {
    let mut board = Board::new();
    let result = play_turn(&mut board, true, "c6 c5".to_string());
    assert_eq!(Err(TurnError::Rule(RuleViolation::InvalidMove)), result);
    assert_eq!(Cell::White, board.get_cell(5, 2));

    let result = play_turn(&mut board, true, "c6".to_string());
    assert_eq!(Err(TurnError::Parse(ParseError::BadLength)), result);
    assert_eq!(Cell::White, board.get_cell(5, 2));
}

#[test]
fn initial_cell_follows_the_parity_rule() {
    assert_eq!(Cell::Black, Board::initial_cell(0, 1));
    assert_eq!(Cell::Empty, Board::initial_cell(0, 2));
    assert_eq!(Cell::Black, Board::initial_cell(1, 0));
    assert_eq!(Cell::White, Board::initial_cell(5, 0));
    assert_eq!(Cell::White, Board::initial_cell(6, 3));
    assert_eq!(Cell::Empty, Board::initial_cell(4, 0));
}
