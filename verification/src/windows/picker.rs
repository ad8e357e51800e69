//! The colour picker: the grid shows the palette, and a press chooses from it.

use vstd::prelude::*;

use crate::grid::on_grid;

verus! {

/// The palette colour of a cell: 0 at the top left, counting to the right and down.
pub open spec fn picker_color(col: u8, row: u8) -> u8 {
    ((7 - row) * 8 + col) as u8
}

/// The cell that is marked for a colour: the one that offers it. The last cell also
/// stands for colour 64, which no cell offers; colours above 64 have no cell.
pub open spec fn picker_cell(color: u8) -> Option<(u8, u8)> {
    if color < 64 {
        Some((color % 8, (7 - color / 8) as u8))
    } else if color == 64 {
        Some((7u8, 0u8))
    } else {
        None
    }
}

/// The palette colour of a cell.
pub fn picker_color_for_cell(col: u8, row: u8) -> (color: u8)
    requires
        row <= 7,
        (7 - row) * 8 + col <= 255,
    ensures
        color == picker_color(col, row),
{
    if col == 0 && row == 7 {
        0
    } else {
        (7 - row) * 8 + col
    }
}

/// The cell that is marked for a colour.
pub fn picker_cell_for_color(color: u8) -> (cell: Option<(u8, u8)>)
    ensures
        cell == picker_cell(color),
        cell matches Some(c) ==> on_grid(c.0, c.1),
{
    if color > 64 {
        return None;
    }
    let index: u8 = if color == 64 {
        63
    } else {
        color
    };
    Some((index % 8, 7 - (index / 8)))
}

/// The cells offer the colours 0 to 63, each exactly once.
pub proof fn law_palette(color: u8)
    requires
        color < 64,
    ensures
        on_grid(color % 8, (7 - color / 8) as u8),
        picker_color(color % 8, (7 - color / 8) as u8) == color,
        forall|col: u8, row: u8|
            on_grid(col, row) && #[trigger] picker_color(col, row) == color ==> col == color % 8
                && row == 7 - color / 8,
{
}

/// The cell that is marked for a colour of the palette is the one that offers it.
pub proof fn law_marked_cell(color: u8)
    requires
        color < 64,
    ensures
        picker_cell(color) matches Some((col, row)) && on_grid(col, row) && picker_color(col, row)
            == color,
{
}

/// Colours above the palette: the last cell stands for the next one, no cell for others.
pub proof fn law_colors_above(color: u8)
    requires
        color >= 64,
    ensures
        color == 64 ==> picker_cell(color) == Some((7u8, 0u8)),
        color > 64 ==> picker_cell(color) is None,
{
}

} // verus!
