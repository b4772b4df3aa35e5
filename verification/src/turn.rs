//! One round of the game loop as a pure state transition: parse the typed
//! token, ask the rule engine, and on success apply the move and hand the
//! turn to the other colour. The surrounding program owns the actual loop,
//! the rendering and the reading of input lines.

use vstd::prelude::*;
use crate::board::Board;
use crate::engine::RuleViolation;
use crate::engine::applied_cell;
use crate::engine::can_move;
use crate::engine::can_move_spec;
use crate::engine::d_column;
use crate::engine::d_row;
use crate::engine::abs;
use crate::engine::make_move;
use crate::engine::move_in_range;
use crate::parser::ParseError;
use crate::parser::lemma_parse_in_range;
use crate::parser::parse_input;
use crate::parser::parse_spec;

verus! {

/// Why a round of the game loop did not flip the turn.
#[derive(Debug, Clone, Copy, PartialEq, Eq, Structural)]
pub enum TurnError {
    /// The typed token was malformed; the caller decides whether to abort
    /// or re-prompt.
    Parse(ParseError),
    /// The move broke a rule; the board is unchanged and the same colour
    /// moves again.
    Rule(RuleViolation),
}

/// Drive one round for the side given by `is_white` on the typed `input`
/// token. On a parse failure or a rule violation the board is left exactly
/// as it was and the error says why; on success the board holds the applied
/// move and the returned flag is the next side to move.
pub fn play_turn(board: &mut Board, is_white: bool, input: String) -> (r: Result<bool, TurnError>)
    requires
        old(board).wf(),
    ensures
        final(board).wf(),
        parse_spec(input@) is Err ==> r == Err::<bool, TurnError>(TurnError::Parse(parse_spec(input@)->Err_0))
            && *final(board) == *old(board),
        parse_spec(input@) is Ok && can_move_spec(
            *old(board),
            parse_spec(input@)->Ok_0,
            is_white,
        ) is Err ==> r == Err::<bool, TurnError>(
            TurnError::Rule(can_move_spec(*old(board), parse_spec(input@)->Ok_0, is_white)->Err_0),
        ) && *final(board) == *old(board),
        parse_spec(input@) is Ok && can_move_spec(
            *old(board),
            parse_spec(input@)->Ok_0,
            is_white,
        ) is Ok ==> r == Ok::<bool, TurnError>(!is_white) && (forall|rr: int, cc: int|
            0 <= rr < 8 && 0 <= cc < 8 ==> #[trigger] final(board).cell(rr, cc) == applied_cell(
                *old(board),
                parse_spec(input@)->Ok_0,
                rr,
                cc,
            )),
{
    let ghost token = input@;
    let cur_move = match parse_input(input) {
        Ok(m) => m,
        Err(e) => {
            return Err(TurnError::Parse(e));
        },
    };
    proof {
        lemma_parse_in_range(token);
        assert(move_in_range(cur_move));
    }
    if let Err(violation) = can_move(board, &cur_move, &is_white) {
        return Err(TurnError::Rule(violation));
    }
    proof {
        assert(abs(d_row(cur_move)) == abs(d_column(cur_move)));
    }
    let applied = make_move(board, &cur_move);
    match applied {
        Ok(()) => Ok(!is_white),
        Err(violation) => Err(TurnError::Rule(violation)),
    }
}

} // verus!
