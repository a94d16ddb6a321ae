//! Text rendering of the board.
//!
//! Two renderings share one traversal: the plain one shows each occupant's
//! label and blanks the unoccupied cells; the playable-digits one blanks the
//! occupied cells and shows each unoccupied cell's 1..=9 digit instead, so a
//! player sees at a glance which moves are left.
//!
//! Layout, byte-exact: three rows of `c|c|c` joined by `-+-+-` rule lines,
//! newline-delimited, with no trailing newline after the last row.

use vstd::prelude::*;
use vstd::string::StringExecFns;
use crate::board::{Board, DisplayPlayableDigits, Player};
use crate::digit::{from_row_col, spec_from_row_col};

verus! {

impl Player {
    /// The single-character label of this player, as seen by contracts.
    pub open spec fn spec_char(self) -> char {
        match self {
            Player::X => 'X',
            Player::O => 'O',
        }
    }

    /// The single-character label of this player.
    pub fn to_char(self) -> (r: char)
        ensures
            r == self.spec_char(),
    {
        match self {
            Player::X => 'X',
            Player::O => 'O',
        }
    }
}

/// The character for a digit in 1..=9; a blank for anything else.
pub open spec fn spec_digit_char(d: int) -> char {
    if d == 1 {
        '1'
    } else if d == 2 {
        '2'
    } else if d == 3 {
        '3'
    } else if d == 4 {
        '4'
    } else if d == 5 {
        '5'
    } else if d == 6 {
        '6'
    } else if d == 7 {
        '7'
    } else if d == 8 {
        '8'
    } else if d == 9 {
        '9'
    } else {
        ' '
    }
}

/// The one-character text for a digit in 1..=9.
fn digit_str(d: u8) -> (r: &'static str)
    requires
        1 <= d <= 9,
    ensures
        r@ == seq![spec_digit_char(d as int)],
{
    let r: &'static str = if d == 1 {
        "1"
    } else if d == 2 {
        "2"
    } else if d == 3 {
        "3"
    } else if d == 4 {
        "4"
    } else if d == 5 {
        "5"
    } else if d == 6 {
        "6"
    } else if d == 7 {
        "7"
    } else if d == 8 {
        "8"
    } else {
        "9"
    };
    proof {
        reveal_strlit("1");
        reveal_strlit("2");
        reveal_strlit("3");
        reveal_strlit("4");
        reveal_strlit("5");
        reveal_strlit("6");
        reveal_strlit("7");
        reveal_strlit("8");
        reveal_strlit("9");
        assert(r@ =~= seq![spec_digit_char(d as int)]);
    }
    r
}

/// The one-character text of a player's label.
fn player_str(p: Player) -> (r: &'static str)
    ensures
        r@ == seq![p.spec_char()],
{
    let r: &'static str = match p {
        Player::X => "X",
        Player::O => "O",
    };
    proof {
        reveal_strlit("X");
        reveal_strlit("O");
        assert(r@ =~= seq![p.spec_char()]);
    }
    r
}

/// The rule line drawn between two rows, with the newlines around it.
pub open spec fn spec_separator() -> Seq<char> {
    seq!['\n', '-', '+', '-', '+', '-', '\n']
}

impl Board {
    /// The character shown for cell (row, col). With `hints` false, the
    /// occupant's label or a blank; with `hints` true, a blank when occupied
    /// and the cell's digit when still playable.
    pub open spec fn spec_cell_char(self, row: int, col: int, hints: bool) -> char {
        match self.spec_get(row, col) {
            Some(p) => if hints {
                ' '
            } else {
                p.spec_char()
            },
            None => if hints {
                match spec_from_row_col(row, col) {
                    Some(d) => spec_digit_char(d as int),
                    None => ' ',
                }
            } else {
                ' '
            },
        }
    }

    /// One rendered row: the three cell characters joined by `|`.
    pub open spec fn spec_row_chars(self, row: int, hints: bool) -> Seq<char> {
        seq![
            self.spec_cell_char(row, 0, hints),
            '|',
            self.spec_cell_char(row, 1, hints),
            '|',
            self.spec_cell_char(row, 2, hints),
        ]
    }

    /// The whole rendered board: three rows joined by rule lines, with no
    /// trailing newline after the last row.
    pub open spec fn spec_render(self, hints: bool) -> Seq<char> {
        self.spec_row_chars(0, hints) + spec_separator() + self.spec_row_chars(1, hints)
            + spec_separator() + self.spec_row_chars(2, hints)
    }

    /// The one-character text shown for cell (row, col).
    fn cell_str(&self, row: usize, col: usize, hints: bool) -> (r: &'static str)
        requires
            row < 3,
            col < 3,
        ensures
            r@ == seq![self.spec_cell_char(row as int, col as int, hints)],
    {
        let blank: &'static str = " ";
        proof {
            reveal_strlit(" ");
        }
        match self.get(row, col) {
            Some(p) => if hints {
                blank
            } else {
                player_str(p)
            },
            None => if hints {
                let d = from_row_col(row, col).unwrap();
                digit_str(d)
            } else {
                blank
            },
        }
    }

    /// Appends one rendered row of this board to `s`.
    fn push_row(&self, s: &mut String, row: usize, hints: bool)
        requires
            row < 3,
        ensures
            final(s)@ == old(s)@ + self.spec_row_chars(row as int, hints),
    {
        s.append(self.cell_str(row, 0, hints));
        s.append("|");
        s.append(self.cell_str(row, 1, hints));
        s.append("|");
        s.append(self.cell_str(row, 2, hints));
        proof {
            reveal_strlit("|");
            assert(s@ =~= old(s)@ + self.spec_row_chars(row as int, hints));
        }
    }

    /// One traversal shared by both renderings: `hints` picks the per-cell
    /// character.
    fn display(&self, hints: bool) -> (r: String)
        ensures
            r@ == self.spec_render(hints),
    {
        let mut s = String::new();
        self.push_row(&mut s, 0, hints);
        s.append("\n-+-+-\n");
        self.push_row(&mut s, 1, hints);
        s.append("\n-+-+-\n");
        self.push_row(&mut s, 2, hints);
        proof {
            reveal_strlit("\n-+-+-\n");
            assert(s@ =~= self.spec_render(hints));
        }
        s
    }

    /// Plain rendering: each cell shows its occupant's label, or a blank
    /// when unoccupied.
    pub fn render(&self) -> (r: String)
        ensures
            r@ == self.spec_render(false),
    {
        self.display(false)
    }
}

impl DisplayPlayableDigits {
    /// Playable-digits rendering of the wrapped board: occupied cells show a
    /// blank, unoccupied cells show their digit.
    pub fn render(&self) -> (r: String)
        ensures
            r@ == self.spec_board().spec_render(true),
    {
        self.board.display(true)
    }
}

} // verus!
