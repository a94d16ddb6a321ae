//! Board state and game rules: cell storage, the single mutation operation,
//! and win/tie detection.

mod display;

use vstd::prelude::*;

verus! {

/// One of the two players. Immutable and equality-comparable.
#[derive(Debug, Clone, Copy, PartialEq, Eq, Structural)]
pub enum Player {
    X,
    O,
}

impl Player {
    /// The other player.
    pub open spec fn spec_opponent(self) -> Player {
        match self {
            Player::X => Player::O,
            Player::O => Player::X,
        }
    }
}

/// The outcome of a finished game: somebody won, or the board filled up
/// with no winner. Derived on demand from the board, never stored.
#[derive(Debug, Clone, Copy, PartialEq, Eq, Structural)]
pub enum GameOver {
    Winner(Player),
    Tie,
}

/// A 3x3 grid of cells, each either unoccupied or occupied by one player.
///
/// The grid is stored flat, with cell (row, col) at index `row * 3 + col`.
/// The board is created empty and mutated only through [`Board::set`].
#[derive(Debug, Clone, Copy)]
pub struct Board {
    cells: [Option<Player>; 9],
}

/// Wrapper around a [`Board`] that renders it with digit hints in the empty
/// squares.
///
/// See [`Board::display_playable_digits`].
pub struct DisplayPlayableDigits {
    board: Board,
}

impl DisplayPlayableDigits {
    /// The board this wrapper renders.
    pub closed spec fn spec_board(self) -> Board {
        self.board
    }
}

impl Board {
    /// The occupant of cell (row, col), as seen by contracts.
    pub closed spec fn spec_get(self, row: int, col: int) -> Option<Player> {
        self.cells@[row * 3 + col]
    }

    /// An empty board: every cell unoccupied.
    pub fn new() -> (b: Board)
        ensures
            forall|r: int, c: int| 0 <= r < 3 && 0 <= c < 3 ==> b.spec_get(r, c) is None,
    {
        Board { cells: [None, None, None, None, None, None, None, None, None] }
    }

    /// The occupant of cell (row, col), or `None` if it is unoccupied.
    ///
    /// Out-of-range coordinates are a caller bug, not a recoverable error:
    /// callers validate them first, through the digit mapping.
    pub fn get(&self, row: usize, col: usize) -> (r: Option<Player>)
        requires
            row < 3,
            col < 3,
        ensures
            r == self.spec_get(row as int, col as int),
    {
        self.cells[row * 3 + col]
    }

    /// Places `player` at (row, col) and returns the previous occupant, so
    /// that callers can detect an illegal overwrite. `set` itself does not
    /// forbid overwriting: checking `get` first is the caller's job.
    pub fn set(&mut self, row: usize, col: usize, player: Player) -> (prev: Option<Player>)
        requires
            row < 3,
            col < 3,
        ensures
            prev == old(self).spec_get(row as int, col as int),
            final(self).spec_get(row as int, col as int) == Some(player),
            forall|r: int, c: int|
                0 <= r < 3 && 0 <= c < 3 && !(r == row && c == col)
                    ==> final(self).spec_get(r, c) == old(self).spec_get(r, c),
    {
        let idx = row * 3 + col;
        let prev = self.cells[idx];
        self.cells[idx] = Some(player);
        prev
    }

    /// Whether `p` occupies all three cells of the line through (r0, c0),
    /// (r1, c1), (r2, c2).
    pub open spec fn spec_line_won(self, p: Player, r0: int, c0: int, r1: int, c1: int, r2: int, c2: int) -> bool {
        &&& self.spec_get(r0, c0) == Some(p)
        &&& self.spec_get(r1, c1) == Some(p)
        &&& self.spec_get(r2, c2) == Some(p)
    }

    /// Whether `p` occupies all three cells of one of the 8 winning lines:
    /// 3 rows, 3 columns, 2 diagonals.
    pub open spec fn spec_wins(self, p: Player) -> bool {
        ||| self.spec_line_won(p, 0, 0, 0, 1, 0, 2)
        ||| self.spec_line_won(p, 1, 0, 1, 1, 1, 2)
        ||| self.spec_line_won(p, 2, 0, 2, 1, 2, 2)
        ||| self.spec_line_won(p, 0, 0, 1, 0, 2, 0)
        ||| self.spec_line_won(p, 0, 1, 1, 1, 2, 1)
        ||| self.spec_line_won(p, 0, 2, 1, 2, 2, 2)
        ||| self.spec_line_won(p, 0, 0, 1, 1, 2, 2)
        ||| self.spec_line_won(p, 0, 2, 1, 1, 2, 0)
    }

    /// Whether every cell of the board is occupied.
    pub open spec fn spec_is_full(self) -> bool {
        forall|r: int, c: int| 0 <= r < 3 && 0 <= c < 3 ==> self.spec_get(r, c) is Some
    }

    /// The outcome derived from the current cells: a win for the first
    /// player found with a complete line (X checked before O, a fixed
    /// order), a tie on a full board with no winner, or `None` while the
    /// game is still in progress.
    pub open spec fn spec_outcome(self) -> Option<GameOver> {
        if self.spec_wins(Player::X) {
            Some(GameOver::Winner(Player::X))
        } else if self.spec_wins(Player::O) {
            Some(GameOver::Winner(Player::O))
        } else if self.spec_is_full() {
            Some(GameOver::Tie)
        } else {
            None
        }
    }

    /// Whether cell (row, col) is occupied by `p`.
    fn cell_is(&self, row: usize, col: usize, p: Player) -> (r: bool)
        requires
            row < 3,
            col < 3,
        ensures
            r == (self.spec_get(row as int, col as int) == Some(p)),
    {
        match self.get(row, col) {
            Some(q) => q == p,
            None => false,
        }
    }

    /// Whether `p` has completed one of the 8 winning lines.
    fn wins(&self, p: Player) -> (r: bool)
        ensures
            r == self.spec_wins(p),
    {
        let row_win = (self.cell_is(0, 0, p) && self.cell_is(0, 1, p) && self.cell_is(0, 2, p))
            || (self.cell_is(1, 0, p) && self.cell_is(1, 1, p) && self.cell_is(1, 2, p))
            || (self.cell_is(2, 0, p) && self.cell_is(2, 1, p) && self.cell_is(2, 2, p));
        let col_win = (self.cell_is(0, 0, p) && self.cell_is(1, 0, p) && self.cell_is(2, 0, p))
            || (self.cell_is(0, 1, p) && self.cell_is(1, 1, p) && self.cell_is(2, 1, p))
            || (self.cell_is(0, 2, p) && self.cell_is(1, 2, p) && self.cell_is(2, 2, p));
        let main_diag = self.cell_is(0, 0, p) && self.cell_is(1, 1, p) && self.cell_is(2, 2, p);
        let cross_diag = self.cell_is(0, 2, p) && self.cell_is(1, 1, p) && self.cell_is(2, 0, p);

        row_win || col_win || main_diag || cross_diag
    }

    /// Whether every cell of the board is occupied.
    fn is_full(&self) -> (r: bool)
        ensures
            r == self.spec_is_full(),
    {
        let mut row: usize = 0;
        while row < 3
            invariant
                row <= 3,
                forall|r: int, c: int| 0 <= r < row && 0 <= c < 3 ==> self.spec_get(r, c) is Some,
            decreases 3 - row,
        {
            let mut col: usize = 0;
            while col < 3
                invariant
                    row < 3,
                    col <= 3,
                    forall|r: int, c: int| 0 <= r < row && 0 <= c < 3 ==> self.spec_get(r, c) is Some,
                    forall|c: int| 0 <= c < col ==> self.spec_get(row as int, c) is Some,
                decreases 3 - col,
            {
                if self.get(row, col).is_none() {
                    return false;
                }
                col = col + 1;
            }
            row = row + 1;
        }
        true
    }

    /// Scans the board and returns the outcome. A pure, idempotent query:
    /// the result is a function of the current cells alone.
    pub fn game_outcome(&self) -> (r: Option<GameOver>)
        ensures
            r == self.spec_outcome(),
    {
        if self.wins(Player::X) {
            return Some(GameOver::Winner(Player::X));
        }
        if self.wins(Player::O) {
            return Some(GameOver::Winner(Player::O));
        }
        if self.is_full() {
            return Some(GameOver::Tie);
        }
        None
    }

    /// Returns a wrapper that renders digit hints in the empty squares, to
    /// make it easier to see which legal moves are left.
    pub fn display_playable_digits(&self) -> (d: DisplayPlayableDigits)
        ensures
            d.spec_board() == *self,
    {
        DisplayPlayableDigits { board: self.clone() }
    }
}

/// A board with every cell unoccupied has no outcome yet: nobody has won
/// and the board is not full, so the game is still in progress.
pub proof fn lemma_empty_board_no_outcome(b: Board)
    requires
        forall|r: int, c: int| 0 <= r < 3 && 0 <= c < 3 ==> b.spec_get(r, c) is None,
    ensures
        b.spec_outcome() is None,
{
}

/// Win detection: a player who has completed a line is the winner, as long
/// as the opponent has not also completed a line of their own.
pub proof fn lemma_win_detected(b: Board, p: Player)
    requires
        b.spec_wins(p),
        !b.spec_wins(p.spec_opponent()),
    ensures
        b.spec_outcome() == Some(GameOver::Winner(p)),
{
}

/// Tie detection: a fully occupied board on which neither player has
/// completed a line is a tie.
pub proof fn lemma_tie_detected(b: Board)
    requires
        b.spec_is_full(),
        !b.spec_wins(Player::X),
        !b.spec_wins(Player::O),
    ensures
        b.spec_outcome() == Some(GameOver::Tie),
{
}

} // verus!
