//! Decision logic for one line of player input.
//!
//! The terminal driver reads a line, trims it, and hands its bytes here; the
//! returned decision tells the driver whether to apply a move or why it must
//! re-prompt instead. All of the validation lives in this one function:
//! empty input, input that is not a single decimal digit, the digit 0 that
//! names no square, and a digit whose square is already occupied.

use vstd::prelude::*;
use crate::board::{Board, Player};
use crate::digit::{spec_to_row_col, to_row_col};

verus! {

/// What the driver should do with one trimmed line of input.
#[derive(Debug, Clone, Copy, PartialEq, Eq, Structural)]
pub enum MoveDecision {
    /// The line was empty: read another line, without a fresh prompt.
    Empty,
    /// The line was not a single decimal digit.
    NotADigit,
    /// The digit 0 names no square.
    OutOfRange,
    /// The named square is already occupied, by this player.
    Occupied(Player),
    /// A legal move: the (row, col) cell to play.
    Play(usize, usize),
}

/// The decision for one trimmed input line, over the bytes of the line.
/// Bytes 48 through 57 are the ASCII digits '0' through '9'.
pub open spec fn spec_decide_move(input: Seq<u8>, board: Board) -> MoveDecision {
    if input.len() == 0 {
        MoveDecision::Empty
    } else if input.len() != 1 || input[0] < 48 || input[0] > 57 {
        MoveDecision::NotADigit
    } else if input[0] == 48 {
        MoveDecision::OutOfRange
    } else {
        let rc = spec_to_row_col(input[0] - 48)->Some_0;
        match board.spec_get(rc.0 as int, rc.1 as int) {
            Some(p) => MoveDecision::Occupied(p),
            None => MoveDecision::Play(rc.0, rc.1),
        }
    }
}

/// Decides what to do with one trimmed line of player input.
pub fn decide_move(input: &[u8], board: &Board) -> (r: MoveDecision)
    ensures
        r == spec_decide_move(input@, *board),
{
    if input.len() == 0 {
        return MoveDecision::Empty;
    }
    if input.len() != 1 {
        return MoveDecision::NotADigit;
    }
    let byte = input[0];
    if byte < 48 || byte > 57 {
        return MoveDecision::NotADigit;
    }
    if byte == 48 {
        return MoveDecision::OutOfRange;
    }

    let digit = byte - 48;
    let (row, col) = to_row_col(digit).unwrap();

    match board.get(row, col) {
        Some(p) => MoveDecision::Occupied(p),
        None => MoveDecision::Play(row, col),
    }
}

} // verus!
