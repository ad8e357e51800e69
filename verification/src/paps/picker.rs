//! The colour picker: the grid shows the palette, and a press chooses from it.

use vstd::prelude::*;

use crate::grid::on_grid;

verus! {

/// The palette colour of a cell: 1 at the top left, counting to the right and down.
pub open spec fn picker_color(col: u8, row: u8) -> u8 {
    ((7 - row) * 8 + col + 1) as u8
}

/// The cell that offers a colour; none for 0 and for colours above 64.
pub open spec fn picker_cell(color: u8) -> Option<(u8, u8)> {
    if color == 0 || color > 64 {
        None
    } else {
        Some((((color - 1) % 8) as u8, (7 - (color - 1) / 8) as u8))
    }
}

/// The palette colour of a cell.
pub fn picker_color_for_cell(col: u8, row: u8) -> (color: u8)
    requires
        row <= 7,
        (7 - row) * 8 + col + 1 <= 255,
    ensures
        color == picker_color(col, row),
{
    let palette_idx: u8 = (7 - row) * 8 + col;
    palette_idx + 1
}

/// The cell that offers a colour.
pub fn picker_cell_for_color(color: u8) -> (cell: Option<(u8, u8)>)
    ensures
        cell == picker_cell(color),
        cell matches Some(c) ==> on_grid(c.0, c.1),
{
    if color == 0 || color > 64 {
        return None;
    }
    let idx: u8 = color - 1;
    let row: u8 = 7 - (idx / 8);
    let col: u8 = idx % 8;
    Some((col, row))
}

/// The cell of the colour that a cell offers is that cell.
pub proof fn law_cell_of_picked_color(col: u8, row: u8)
    requires
        on_grid(col, row),
    ensures
        1 <= picker_color(col, row) <= 64,
        picker_cell(picker_color(col, row)) == Some((col, row)),
{
}

/// The cell of a colour offers that colour.
pub proof fn law_color_of_picker_cell(color: u8)
    requires
        1 <= color <= 64,
    ensures
        picker_cell(color) matches Some((col, row)) && on_grid(col, row) && picker_color(col, row)
            == color,
{
}

} // verus!
