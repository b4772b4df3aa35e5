//! The rule engine and move applier: decides whether a proposed move is a
//! legal simple step or jump-capture for the side to move, and mutates the
//! board once a move has been accepted.

use vstd::prelude::*;
use crate::board::Board;
use crate::board::Cell;
use crate::parser::Move;

pub use crate::parser::move_in_range;

verus! {

/// Why the rule engine rejected a proposed move.
#[derive(Debug, Clone, Copy, PartialEq, Eq, Structural)]
pub enum RuleViolation {
    /// The source square holds no piece.
    EmptySource,
    /// The target square already holds a piece of either colour.
    OccupiedTarget,
    /// The source piece's colour is not the colour whose turn it is.
    WrongTurn,
    /// The step is not a legal forward diagonal of magnitude one, nor a
    /// diagonal of magnitude two.
    InvalidMove,
    /// A magnitude-two diagonal that does not jump forward over an
    /// opposing piece.
    InvalidCapture,
}

/// Signed row delta, `source - target`: positive means the piece moves
/// toward row 0, where White is headed.
pub open spec fn d_row(m: Move) -> int {
    m.initial_pos.row - m.target_pos.row
}

/// Signed column delta, `source - target`.
pub open spec fn d_column(m: Move) -> int {
    m.initial_pos.column - m.target_pos.column
}

/// The square a magnitude-two jump passes over: the midpoint of source
/// and target on each axis.
pub open spec fn mid_row(m: Move) -> int {
    (m.initial_pos.row + m.target_pos.row) / 2
}

/// See `mid_row`.
pub open spec fn mid_column(m: Move) -> int {
    (m.initial_pos.column + m.target_pos.column) / 2
}

/// The absolute value of a delta.
pub open spec fn abs(d: int) -> int {
    if d >= 0 {
        d
    } else {
        -d
    }
}

/// A one-square diagonal step in the mover's forward direction: White
/// advances toward row 0 (`d_row == 1`), Black toward row 7 (`d_row == -1`).
pub open spec fn simple_move_ok(m: Move, is_white: bool) -> bool {
    abs(d_row(m)) == 1 && abs(d_column(m)) == 1 && (if is_white {
        d_row(m) == 1
    } else {
        d_row(m) == -1
    })
}

/// A two-square diagonal jump in the mover's forward direction whose
/// jumped square holds a piece of the opposite colour.
pub open spec fn capture_move_ok(b: Board, m: Move, is_white: bool) -> bool {
    let jumped = b.cell(mid_row(m), mid_column(m));
    abs(d_row(m)) == 2 && abs(d_column(m)) == 2 && (if is_white {
        d_row(m) == 2 && jumped.is_black_piece()
    } else {
        d_row(m) == -2 && jumped.is_white_piece()
    })
}

/// The rule engine's verdict, in its decision order: an empty source, then
/// an occupied target, then the wrong colour for the turn, are rejected
/// outright; a magnitude-one diagonal must be a forward step; a
/// magnitude-two diagonal must be a forward jump over an opposing piece;
/// any other delta is no move at all.
pub open spec fn can_move_spec(b: Board, m: Move, is_white: bool) -> Result<(), RuleViolation> {
    let start = b.cell(m.initial_pos.row as int, m.initial_pos.column as int);
    let end = b.cell(m.target_pos.row as int, m.target_pos.column as int);
    if start is Empty {
        Err(RuleViolation::EmptySource)
    } else if !(end is Empty) {
        Err(RuleViolation::OccupiedTarget)
    } else if start.is_white_piece() != is_white {
        Err(RuleViolation::WrongTurn)
    } else if abs(d_row(m)) == 1 && abs(d_column(m)) == 1 {
        if simple_move_ok(m, is_white) {
            Ok(())
        } else {
            Err(RuleViolation::InvalidMove)
        }
    } else if abs(d_row(m)) == 2 && abs(d_column(m)) == 2 {
        if capture_move_ok(b, m, is_white) {
            Ok(())
        } else {
            Err(RuleViolation::InvalidCapture)
        }
    } else {
        Err(RuleViolation::InvalidMove)
    }
}

/// Decide whether `proposed_move` is legal on `board` for the side given by
/// `is_white`. Strictly a predicate: reads the board, mutates nothing, and
/// returns exactly the verdict of `can_move_spec`.
pub fn can_move(board: &Board, proposed_move: &Move, is_white: &bool) -> (r: Result<
    (),
    RuleViolation,
>)
    requires
        board.wf(),
        move_in_range(*proposed_move),
    ensures
        r == can_move_spec(*board, *proposed_move, *is_white),
{
    let initial_pos = &proposed_move.initial_pos;
    let target_pos = &proposed_move.target_pos;

    let start = board.get_cell(initial_pos.row, initial_pos.column);
    let end = board.get_cell(target_pos.row, target_pos.column);

    if matches!(start, Cell::Empty) {
        return Err(RuleViolation::EmptySource);
    }
    if !matches!(end, Cell::Empty) {
        return Err(RuleViolation::OccupiedTarget);
    }
    let start_is_white = matches!(start, Cell::White | Cell::WhiteQueen);
    if start_is_white != *is_white {
        return Err(RuleViolation::WrongTurn);
    }

    let d_row_e: i32 = initial_pos.row as i32 - target_pos.row as i32;
    let d_column_e: i32 = initial_pos.column as i32 - target_pos.column as i32;

    if (d_row_e == 1 || d_row_e == -1) && (d_column_e == 1 || d_column_e == -1) {
        if (*is_white && d_row_e == 1) || (!*is_white && d_row_e == -1) {
            Ok(())
        } else {
            Err(RuleViolation::InvalidMove)
        }
    } else if (d_row_e == 2 || d_row_e == -2) && (d_column_e == 2 || d_column_e == -2) {
        let captured_row = (initial_pos.row + target_pos.row) / 2;
        let captured_column = (initial_pos.column + target_pos.column) / 2;
        let captured_cell = board.get_cell(captured_row, captured_column);
        let jumped_black = matches!(captured_cell, Cell::Black | Cell::BlackQueen);
        let jumped_white = matches!(captured_cell, Cell::White | Cell::WhiteQueen);
        if (*is_white && d_row_e == 2 && jumped_black) || (!*is_white && d_row_e == -2
            && jumped_white) {
            Ok(())
        } else {
            Err(RuleViolation::InvalidCapture)
        }
    } else {
        Err(RuleViolation::InvalidMove)
    }
}

/// What the board holds at `(r, c)` after `m` is applied to `b`: the source
/// content moves to the target, the target content (empty for any validated
/// move) moves to the source, and for a magnitude-two diagonal the jumped
/// square is cleared.
pub open spec fn applied_cell(b: Board, m: Move, r: int, c: int) -> Cell {
    if r == m.target_pos.row as int && c == m.target_pos.column as int {
        b.cell(m.initial_pos.row as int, m.initial_pos.column as int)
    } else if r == m.initial_pos.row as int && c == m.initial_pos.column as int {
        b.cell(m.target_pos.row as int, m.target_pos.column as int)
    } else if abs(d_row(m)) == 2 && r == mid_row(m) && c == mid_column(m) {
        Cell::Empty
    } else {
        b.cell(r, c)
    }
}

/// Apply a move that has already passed the rule engine: swap the source
/// and target squares, and for a jump clear the captured square. Not itself
/// a validator; it trusts its caller, and only asks for the diagonal shape
/// that every rule-engine verdict of `Ok` guarantees.
pub fn make_move(board: &mut Board, proposed_move: &Move) -> (r: Result<(), RuleViolation>)
    requires
        old(board).wf(),
        move_in_range(*proposed_move),
        abs(d_row(*proposed_move)) == abs(d_column(*proposed_move)),
    ensures
        final(board).wf(),
        r == Ok::<(), RuleViolation>(()),
        forall|rr: int, cc: int|
            0 <= rr < 8 && 0 <= cc < 8 ==> #[trigger] final(board).cell(rr, cc) == applied_cell(
                *old(board),
                *proposed_move,
                rr,
                cc,
            ),
{
    let initial_pos = &proposed_move.initial_pos;
    let target_pos = &proposed_move.target_pos;

    let start = board.get_cell(initial_pos.row, initial_pos.column);
    let end = board.get_cell(target_pos.row, target_pos.column);

    board.set_cell(target_pos.row, target_pos.column, start);
    board.set_cell(initial_pos.row, initial_pos.column, end);

    let d_row_e: i32 = initial_pos.row as i32 - target_pos.row as i32;
    if d_row_e == 2 || d_row_e == -2 {
        let captured_row = (initial_pos.row + target_pos.row) / 2;
        let captured_column = (initial_pos.column + target_pos.column) / 2;
        board.set_cell(captured_row, captured_column, Cell::Empty);
    }

    Ok(())
}

/// The source and target of `m`, swapped: the exact reverse of the move.
pub open spec fn reverse_move(m: Move) -> Move {
    Move { initial_pos: m.target_pos, target_pos: m.initial_pos }
}

/// From a piece of the side to move, a forward diagonal step of magnitude
/// one onto an empty square is accepted.
pub proof fn lemma_simple_move_legal(b: Board, m: Move, is_white: bool)
    requires
        b.wf(),
        move_in_range(m),
        !(b.cell(m.initial_pos.row as int, m.initial_pos.column as int) is Empty),
        b.cell(m.initial_pos.row as int, m.initial_pos.column as int).is_white_piece() == is_white,
        b.cell(m.target_pos.row as int, m.target_pos.column as int) is Empty,
        simple_move_ok(m, is_white),
    ensures
        can_move_spec(b, m, is_white) == Ok::<(), RuleViolation>(()),
{
}

/// From a piece of the side to move onto an empty square, any step that is
/// neither a forward diagonal of magnitude one nor a diagonal of magnitude
/// two — a sideways or backward step among them — is rejected as an invalid
/// move.
pub proof fn lemma_irregular_step_rejected(b: Board, m: Move, is_white: bool)
    requires
        b.wf(),
        move_in_range(m),
        !(b.cell(m.initial_pos.row as int, m.initial_pos.column as int) is Empty),
        b.cell(m.initial_pos.row as int, m.initial_pos.column as int).is_white_piece() == is_white,
        b.cell(m.target_pos.row as int, m.target_pos.column as int) is Empty,
        !simple_move_ok(m, is_white),
        !(abs(d_row(m)) == 2 && abs(d_column(m)) == 2),
    ensures
        can_move_spec(b, m, is_white) == Err::<(), RuleViolation>(RuleViolation::InvalidMove),
{
}

/// A forward magnitude-two diagonal jump over an opposing piece onto an
/// empty square is accepted as a capture.
pub proof fn lemma_capture_legal(b: Board, m: Move, is_white: bool)
    requires
        b.wf(),
        move_in_range(m),
        !(b.cell(m.initial_pos.row as int, m.initial_pos.column as int) is Empty),
        b.cell(m.initial_pos.row as int, m.initial_pos.column as int).is_white_piece() == is_white,
        b.cell(m.target_pos.row as int, m.target_pos.column as int) is Empty,
        capture_move_ok(b, m, is_white),
    ensures
        can_move_spec(b, m, is_white) == Ok::<(), RuleViolation>(()),
{
}

/// A magnitude-two diagonal that does not jump forward over an opposing
/// piece — the jumped square empty or of the mover's own colour among the
/// cases — is rejected as an invalid capture.
pub proof fn lemma_bad_capture_rejected(b: Board, m: Move, is_white: bool)
    requires
        b.wf(),
        move_in_range(m),
        !(b.cell(m.initial_pos.row as int, m.initial_pos.column as int) is Empty),
        b.cell(m.initial_pos.row as int, m.initial_pos.column as int).is_white_piece() == is_white,
        b.cell(m.target_pos.row as int, m.target_pos.column as int) is Empty,
        abs(d_row(m)) == 2 && abs(d_column(m)) == 2,
        !capture_move_ok(b, m, is_white),
    ensures
        can_move_spec(b, m, is_white) == Err::<(), RuleViolation>(RuleViolation::InvalidCapture),
{
}

/// A move from an empty square is rejected as an empty source, whatever the
/// target and whoever is to move.
pub proof fn lemma_empty_source(b: Board, m: Move, is_white: bool)
    requires
        b.wf(),
        move_in_range(m),
        b.cell(m.initial_pos.row as int, m.initial_pos.column as int) is Empty,
    ensures
        can_move_spec(b, m, is_white) == Err::<(), RuleViolation>(RuleViolation::EmptySource),
{
}

/// A move from an occupied square onto an occupied square is rejected as an
/// occupied target, whatever the pieces and whoever is to move.
pub proof fn lemma_occupied_target(b: Board, m: Move, is_white: bool)
    requires
        b.wf(),
        move_in_range(m),
        !(b.cell(m.initial_pos.row as int, m.initial_pos.column as int) is Empty),
        !(b.cell(m.target_pos.row as int, m.target_pos.column as int) is Empty),
    ensures
        can_move_spec(b, m, is_white) == Err::<(), RuleViolation>(RuleViolation::OccupiedTarget),
{
}

/// Applying a simple (magnitude-one) move and then its exact reverse
/// restores every square of the board, the two involved squares included.
pub proof fn lemma_simple_move_round_trip(b: Board, b1: Board, b2: Board, m: Move)
    requires
        move_in_range(m),
        abs(d_row(m)) == 1,
        abs(d_column(m)) == 1,
        forall|rr: int, cc: int|
            0 <= rr < 8 && 0 <= cc < 8 ==> #[trigger] b1.cell(rr, cc) == applied_cell(b, m, rr, cc),
        forall|rr: int, cc: int|
            0 <= rr < 8 && 0 <= cc < 8 ==> #[trigger] b2.cell(rr, cc) == applied_cell(
                b1,
                reverse_move(m),
                rr,
                cc,
            ),
    ensures
        forall|rr: int, cc: int| 0 <= rr < 8 && 0 <= cc < 8 ==> #[trigger] b2.cell(rr, cc) == b.cell(rr, cc),
{
}

} // verus!
