//! The 8x8 board: cell states, the standard starting layout, and the
//! read/write storage primitives. The board never validates moves; that is
//! the rule engine's job.

use vstd::prelude::*;

verus! {

/// One square of the board. Queen variants exist in the data model, but no
/// rule currently promotes into them; the rule engine moves them by colour
/// exactly like ordinary pieces.
#[derive(Debug, Clone, Copy, PartialEq, Eq, Structural)]
pub enum Cell {
    Empty,
    White,
    Black,
    WhiteQueen,
    BlackQueen,
}

impl Cell {
    /// True of the two white piece kinds.
    pub open spec fn is_white_piece(self) -> bool {
        self is White || self is WhiteQueen
    }

    /// True of the two black piece kinds.
    pub open spec fn is_black_piece(self) -> bool {
        self is Black || self is BlackQueen
    }
}

/// The cell that the standard starting position puts at `(row, column)`:
/// rows 0 to 2 hold Black and rows 5 to 7 hold White, each only on the
/// squares whose column parity matches the row, and rows 3 and 4 are empty.
pub open spec fn initial_cell_spec(row: int, column: int) -> Cell {
    if (row == 0 || row == 2) && column % 2 == 1 {
        Cell::Black
    } else if row == 1 && column % 2 == 0 {
        Cell::Black
    } else if (row == 5 || row == 7) && column % 2 == 0 {
        Cell::White
    } else if row == 6 && column % 2 == 1 {
        Cell::White
    } else {
        Cell::Empty
    }
}

/// A fixed 8x8 grid of cells, stored row-major.
#[derive(Debug)]
pub struct Board {
    cells: Vec<Cell>,
}

impl Board {
    /// The grid always holds exactly the 64 squares.
    pub closed spec fn wf(self) -> bool {
        self.cells@.len() == 64
    }

    /// The cell at `(row, column)`, both in `[0, 7]`.
    pub closed spec fn cell(self, row: int, column: int) -> Cell {
        self.cells@[row * 8 + column]
    }

    /// The standard starting layout: every square agrees with
    /// `initial_cell_spec`.
    pub fn new() -> (board: Board)
        ensures
            board.wf(),
            forall|r: int, c: int|
                0 <= r < 8 && 0 <= c < 8 ==> #[trigger] board.cell(r, c) == initial_cell_spec(r, c),
    {
        let mut cells: Vec<Cell> = Vec::new();
        let mut i: usize = 0;
        while i < 8
            invariant
                i <= 8,
                cells@.len() == i * 8,
                forall|r: int, c: int|
                    0 <= r < i && 0 <= c < 8 ==> cells@[r * 8 + c] == initial_cell_spec(r, c),
            decreases 8 - i,
        {
            let mut j: usize = 0;
            while j < 8
                invariant
                    i < 8,
                    j <= 8,
                    cells@.len() == i * 8 + j,
                    forall|r: int, c: int|
                        0 <= r < i && 0 <= c < 8 ==> cells@[r * 8 + c] == initial_cell_spec(r, c),
                    forall|c: int| 0 <= c < j ==> cells@[i * 8 + c] == initial_cell_spec(i as int, c),
                decreases 8 - j,
            {
                cells.push(Self::initial_cell(i, j));
                j += 1;
            }
            i += 1;
        }
        Board { cells }
    }

    /// The starting content of one square, by the row-parity rule.
    pub fn initial_cell(row: usize, column: usize) -> (cell: Cell)
        ensures
            cell == initial_cell_spec(row as int, column as int),
    {
        if (row == 0 || row == 2) && column % 2 == 1 {
            Cell::Black
        } else if row == 1 && column % 2 == 0 {
            Cell::Black
        } else if (row == 5 || row == 7) && column % 2 == 0 {
            Cell::White
        } else if row == 6 && column % 2 == 1 {
            Cell::White
        } else {
            Cell::Empty
        }
    }

    /// Read one square. Callers must pass validated coordinates.
    pub fn get_cell(&self, row: u8, col: u8) -> (cell: Cell)
        requires
            self.wf(),
            row < 8,
            col < 8,
        ensures
            cell == self.cell(row as int, col as int),
    {
        self.cells[row as usize * 8 + col as usize]
    }

    /// Overwrite one square, leaving every other square unchanged. A pure
    /// storage primitive: no legality checking happens at this layer.
    pub fn set_cell(&mut self, row: u8, col: u8, cell: Cell)
        requires
            old(self).wf(),
            row < 8,
            col < 8,
        ensures
            final(self).wf(),
            final(self).cell(row as int, col as int) == cell,
            forall|r: int, c: int|
                0 <= r < 8 && 0 <= c < 8 && !(r == row as int && c == col as int)
                    ==> #[trigger] final(self).cell(r, c) == old(self).cell(r, c),
    {
        self.cells[row as usize * 8 + col as usize] = cell;
        proof {
            assert forall|r: int, c: int|
                0 <= r < 8 && 0 <= c < 8 && !(r == row as int && c == col as int)
                    implies final(self).cell(r, c) == old(self).cell(r, c) by {
                assert(r * 8 + c != row as int * 8 + col as int) by (nonlinear_arith)
                    requires
                        0 <= r < 8,
                        0 <= c < 8,
                        0 <= row < 8,
                        0 <= col < 8,
                        !(r == row as int && c == col as int),
                ;
            }
        }
    }
}

/// The whole game state: the board plus the players and the (not yet
/// implemented) game-over bookkeeping.
#[derive(Debug)]
pub struct Game {
    pub is_over: bool,
    pub winner: Option<String>,
    pub player_w: String,
    pub player_b: String,
    pub board: Board,
}

impl Game {
    /// A fresh game: not over, no winner, the standard starting board, the
    /// first argument playing White and the second playing Black.
    pub fn new(player1: String, player2: String) -> (game: Game)
        ensures
            game.is_over == false,
            game.winner is None,
            game.player_w == player1,
            game.player_b == player2,
            game.board.wf(),
            forall|r: int, c: int|
                0 <= r < 8 && 0 <= c < 8 ==> #[trigger] game.board.cell(r, c) == initial_cell_spec(r, c),
    {
        Game {
            is_over: false,
            winner: None,
            player_w: player1,
            player_b: player2,
            board: Board::new(),
        }
    }
}

} // verus!
