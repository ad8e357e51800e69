//! The 8x8 pad grid: note numbers, cells and pad numbers.
//!
//! Cells are `(col, row)` with `(0, 0)` at the bottom left. A pad's note number
//! is written in decimal as row and column, both counted from one, so the
//! bottom left pad is 11 and the top right pad is 88.

use vstd::prelude::*;

verus! {

/// Controller numbers of the page selectors in the top row, left to right.
pub const PAGE_SELECT_CC: [u8; 8] = [91, 92, 93, 94, 95, 96, 97, 98];

/// Numbers of the buttons in the right column, bottom to top.
pub const RIGHT_COLUMN: [u8; 8] = [19, 29, 39, 49, 59, 69, 79, 89];

/// A cell of the 8x8 grid.
pub open spec fn on_grid(col: u8, row: u8) -> bool {
    col < 8 && row < 8
}

/// The note number of a cell.
pub open spec fn note_at(col: u8, row: u8) -> u8 {
    ((row + 1) * 10 + (col + 1)) as u8
}

/// The cell that a note number is read as: the tens digit gives the row and the
/// units digit the column. A units digit of 0 is read as the leftmost column.
pub open spec fn cell_of(note: u8) -> Option<(u8, u8)> {
    if 11 <= note <= 88 && note % 10 != 9 {
        Some(
            (
                (if note % 10 == 0 { 0int } else { note % 10 - 1 }) as u8,
                (note / 10 - 1) as u8,
            ),
        )
    } else {
        None
    }
}

/// The number of a pad when the pads are counted from 1, row by row from the bottom.
pub open spec fn pad_number(col: u8, row: u8) -> int {
    row * 8 + col + 1
}

/// The position of a page selector in the top row.
pub open spec fn selector_index(cc: u8) -> Option<usize> {
    if 91 <= cc <= 98 {
        Some((cc - 91) as usize)
    } else {
        None
    }
}

/// The position of a button in the right column, counted from the bottom.
pub open spec fn right_index(cc: u8) -> Option<usize> {
    if 19 <= cc <= 89 && cc % 10 == 9 {
        Some((cc / 10 - 1) as usize)
    } else {
        None
    }
}

/// Converts a grid position to its note number. Row 0 is the bottom row.
pub fn grid_note(col: u8, row: u8) -> (note: u8)
    requires
        (row + 1) * 10 + (col + 1) <= 255,
    ensures
        note == (row + 1) * 10 + (col + 1),
        note == note_at(col, row),
{
    (row + 1) * 10 + (col + 1)
}

/// Converts a grid note to its cell; `None` for a note outside the grid.
pub fn note_to_grid(note: u8) -> (cell: Option<(u8, u8)>)
    ensures
        cell == cell_of(note),
        cell matches Some(c) ==> on_grid(c.0, c.1),
{
    if note < 11 || note > 88 {
        return None;
    }
    let row: u8 = (note / 10).saturating_sub(1);
    let col: u8 = (note % 10).saturating_sub(1);
    if col > 7 || row > 7 {
        None
    } else {
        Some((col, row))
    }
}

/// The pad number of a cell, 1 at the bottom left and 64 at the top right.
pub fn grid_to_pad_index(col: u8, row: u8) -> (index: u8)
    requires
        row * 8 + col + 1 <= 255,
    ensures
        index == pad_number(col, row),
{
    row * 8 + col + 1
}

/// The position in the top row of the page selector with this controller number.
pub fn page_for_cc(cc: u8) -> (index: Option<usize>)
    ensures
        index == selector_index(cc),
{
    let mut i: usize = 0;
    while i < 8
        invariant
            0 <= i <= 8,
            forall|j: int| 0 <= j < i ==> PAGE_SELECT_CC[j] != cc,
        decreases 8 - i,
    {
        if PAGE_SELECT_CC[i] == cc {
            return Some(i);
        }
        i = i + 1;
    }
    proof {
        if 91 <= cc <= 98 {
            assert(PAGE_SELECT_CC[cc - 91] == cc);
        }
    }
    None
}

/// The position in the right column of the button with this number.
pub fn right_column_index(cc: u8) -> (index: Option<usize>)
    ensures
        index == right_index(cc),
{
    let mut i: usize = 0;
    while i < 8
        invariant
            0 <= i <= 8,
            forall|j: int| 0 <= j < i ==> RIGHT_COLUMN[j] != cc,
        decreases 8 - i,
    {
        if RIGHT_COLUMN[i] == cc {
            return Some(i);
        }
        i = i + 1;
    }
    proof {
        if 19 <= cc <= 89 && cc % 10 == 9 {
            assert(RIGHT_COLUMN[cc / 10 - 1] == cc);
        }
    }
    None
}

/// Reading back the note of a cell gives the cell.
pub proof fn law_cell_of_note_at(col: u8, row: u8)
    requires
        on_grid(col, row),
    ensures
        cell_of(note_at(col, row)) == Some((col, row)),
{
}

/// A note that is read as a cell is that cell's note, unless its units digit is 0.
pub proof fn law_note_at_cell_of(note: u8)
    requires
        cell_of(note) is Some,
        note % 10 != 0,
    ensures
        cell_of(note) matches Some((col, row)) ==> note_at(col, row) == note,
{
}

/// Different cells have different notes, and all of them lie between 11 and 88.
pub proof fn law_notes_are_distinct(c1: u8, r1: u8, c2: u8, r2: u8)
    requires
        on_grid(c1, r1),
        on_grid(c2, r2),
    ensures
        11 <= note_at(c1, r1) <= 88,
        note_at(c1, r1) == note_at(c2, r2) <==> (c1 == c2 && r1 == r2),
{
}

/// Pads are numbered from 1 to 64, each number belonging to exactly one cell.
pub proof fn law_pad_numbers(n: int)
    requires
        1 <= n <= 64,
    ensures
        on_grid(((n - 1) % 8) as u8, ((n - 1) / 8) as u8),
        pad_number(((n - 1) % 8) as u8, ((n - 1) / 8) as u8) == n,
        forall|col: u8, row: u8|
            on_grid(col, row) && #[trigger] pad_number(col, row) == n ==> col == (n - 1) % 8 && row
                == (n - 1) / 8,
{
}

/// Page selectors, right column buttons and grid pads never share a number.
pub proof fn law_controls_are_disjoint(number: u8)
    ensures
        selector_index(number) is Some ==> right_index(number) is None && cell_of(number) is None,
        right_index(number) is Some ==> cell_of(number) is None,
{
}

/// The note of a cell has the row and the column, both counted from 1, as its digits.
pub proof fn law_notes(col: u8, row: u8)
    requires
        col < 8,
        row < 8,
    ensures
        note_at(col, row) / 10 == row + 1,
        note_at(col, row) % 10 == col + 1,
        on_grid(col, row),
{
}

/// A note is read as the cell that its digits name, a units digit of 0 being read as 1.
/// Any other note is no cell.
pub proof fn law_cells(note: u8)
    ensures
        cell_of(note) is Some <==> 11 <= note <= 88 && note % 10 != 9,
        cell_of(note) matches Some((col, row)) ==> {
            &&& col < 8
            &&& row < 8
            &&& note / 10 == row + 1
            &&& note % 10 == col + 1 || (note % 10 == 0 && col == 0)
        },
{
}

/// The page selectors are 91 to 98 from the left; the right column is 19 to 89, in tens,
/// from the bottom.
pub proof fn law_controls(number: u8)
    ensures
        selector_index(number) is Some <==> 91 <= number <= 98,
        selector_index(number) matches Some(index) ==> number == 91 + index,
        right_index(number) is Some <==> 19 <= number <= 89 && number % 10 == 9,
        right_index(number) matches Some(index) ==> number == 19 + 10 * index,
{
}

} // verus!
