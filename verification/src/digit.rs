//! Conversion between a digit 1..=9 and a (row, col) cell address.
//!
//! The mapping reproduces the layout of a keyboard numpad: digits 7, 8, 9
//! name the top row (row 0), 4, 5, 6 the middle row (row 1), and 1, 2, 3
//! the bottom row (row 2); within a row, columns increase left to right.
//!
//! Both conversions validate their input and return `None` outside the
//! documented domain, so the driver can re-prompt on bad input instead of
//! crashing.

use vstd::prelude::*;

verus! {

/// The cell that digit `d` names, or `None` when `d` is not in 1..=9.
pub open spec fn spec_to_row_col(d: int) -> Option<(usize, usize)> {
    if 1 <= d <= 9 {
        Some(((2 - (d - 1) / 3) as usize, ((d - 1) % 3) as usize))
    } else {
        None
    }
}

/// The digit that names cell (row, col), or `None` when either index is
/// outside 0..=2. Inverse of `spec_to_row_col`.
pub open spec fn spec_from_row_col(row: int, col: int) -> Option<u8> {
    if 0 <= row < 3 && 0 <= col < 3 {
        Some(((2 - row) * 3 + col + 1) as u8)
    } else {
        None
    }
}

/// Maps a digit to the (row, col) cell it names on the numpad layout.
pub fn to_row_col(digit: u8) -> (r: Option<(usize, usize)>)
    ensures
        r == spec_to_row_col(digit as int),
{
    if digit < 1 || digit > 9 {
        return None;
    }

    let zero_indexed = digit - 1;

    let row_bottom_up = zero_indexed / 3;
    let col = zero_indexed % 3;

    let row_top_down = 2 - row_bottom_up;

    Some((row_top_down as usize, col as usize))
}

/// Maps a (row, col) cell to the digit that names it on the numpad layout.
pub fn from_row_col(row: usize, col: usize) -> (r: Option<u8>)
    ensures
        r == spec_from_row_col(row as int, col as int),
{
    if row >= 3 || col >= 3 {
        return None;
    }

    let row_bottom_up = 2 - row;
    let zero_indexed = row_bottom_up * 3 + col;

    Some(zero_indexed as u8 + 1)
}

/// Round trip starting from a digit: every digit in 1..=9 names a cell, and
/// that cell names the same digit back.
pub proof fn lemma_round_trip_from_digit(d: u8)
    requires
        1 <= d <= 9,
    ensures
        spec_to_row_col(d as int) is Some,
        ({
            let rc = spec_to_row_col(d as int)->Some_0;
            spec_from_row_col(rc.0 as int, rc.1 as int) == Some(d)
        }),
{
}

/// Round trip starting from a cell: every in-range (row, col) is named by a
/// digit, and that digit names the same cell back.
pub proof fn lemma_round_trip_from_cell(row: usize, col: usize)
    requires
        row < 3,
        col < 3,
    ensures
        spec_from_row_col(row as int, col as int) is Some,
        ({
            let d = spec_from_row_col(row as int, col as int)->Some_0;
            spec_to_row_col(d as int) == Some((row, col))
        }),
{
}

} // verus!
