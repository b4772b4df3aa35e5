//! A two-player checkers (draughts) core: board state, coordinate parsing,
//! move legality, and move application, with machine-checked contracts.
//!
//! Terminal rendering and input reading are left to the surrounding program;
//! this crate owns the rules and the board state machine.

pub mod board;
pub mod engine;
pub mod game;
pub mod parser;
pub mod turn;

pub use board::Board;
pub use board::Cell;
pub use board::Game;
pub use parser::Coords;
pub use parser::Move;
pub use parser::ParseError;
pub use parser::char_to_index;
pub use parser::parse_input;
pub use engine::RuleViolation;
pub use engine::can_move;
pub use engine::make_move;
pub use turn::TurnError;
pub use turn::play_turn;
