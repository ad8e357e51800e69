//! Nudge pages: four arms of pads around the centre of the grid. The pads of
//! the innermost ring move by a fine step, those around it by a medium one, those
//! of the edge by a coarse one. The upper and lower arm move tilt, the left and
//! right arm pan.

use vstd::prelude::*;

use crate::grid::on_grid;
use crate::position::{law_spacing, nearest, nearest_single, ONE};

verus! {

/// How far a column or row lies from the middle of the grid, 0 to 3.
pub open spec fn distance(index: u8) -> int {
    if index < 4 {
        3 - index
    } else {
        index - 4
    }
}

/// Whether a pad at these distances belongs to an arm: `along` in the arm's
/// direction, `across` at a right angle to it. The arms are two pads wide next to
/// the centre and four pads wide further out.
pub open spec fn on_arm(along: int, across: int) -> bool {
    if along == 1 {
        across == 0
    } else {
        along > 1 && across <= 1
    }
}

/// A coarse step is a quarter, a medium one a tenth, a fine one a twentieth.
pub open spec fn step_units(along: int) -> int {
    nearest_single(
        ONE as int,
        if along == 1 {
            20
        } else if along == 2 {
            10
        } else {
            4
        },
    )
}

/// How far a press moves pan and tilt, in units of position; `None` for the pads
/// between the arms and in the centre, which have no function.
pub open spec fn nudge_of(col: u8, row: u8) -> Option<(int, int)> {
    let h = distance(col);
    let v = distance(row);
    if !on_grid(col, row) {
        None
    } else if on_arm(v, h) {
        Some(
            (
                0int,
                if row >= 4 {
                    -step_units(v)
                } else {
                    step_units(v)
                },
            ),
        )
    } else if on_arm(h, v) {
        Some(
            (
                if col < 4 {
                    -step_units(h)
                } else {
                    step_units(h)
                },
                0int,
            ),
        )
    } else {
        None
    }
}

/// The colour of a pad: blue for coarse steps, magenta for medium ones, white
/// for fine ones, dim for the other pads.
pub open spec fn nudge_color(col: u8, row: u8) -> u8 {
    let h = distance(col);
    let v = distance(row);
    let along = if on_arm(v, h) {
        v
    } else if on_arm(h, v) {
        h
    } else {
        0
    };
    if along == 3 {
        45
    } else if along == 2 {
        53
    } else if along == 1 {
        72
    } else {
        1
    }
}

/// How far a press moves pan and tilt, in units of position.
pub fn nudge_from_position(col: u8, row: u8) -> (nudge: Option<(i64, i64)>)
    ensures
        match nudge {
            Some((pan, tilt)) => nudge_of(col, row) == Some((pan as int, tilt as int)) && -ONE
                <= pan <= ONE && -ONE <= tilt <= ONE,
            None => nudge_of(col, row) is None,
        },
{
    let coarse: i64 = nearest(ONE as u64, 4) as i64;
    let medium: i64 = nearest(ONE as u64, 10) as i64;
    let fine: i64 = nearest(ONE as u64, 20) as i64;
    match (col, row) {
        (2, 7) | (3, 7) | (4, 7) | (5, 7) => Some((0, -coarse)),
        (2, 6) | (3, 6) | (4, 6) | (5, 6) => Some((0, -medium)),
        (3, 5) | (4, 5) => Some((0, -fine)),
        (0, 5) | (0, 4) | (0, 3) | (0, 2) => Some((-coarse, 0)),
        (7, 5) | (7, 4) | (7, 3) | (7, 2) => Some((coarse, 0)),
        (1, 5) | (1, 4) | (1, 3) | (1, 2) => Some((-medium, 0)),
        (6, 5) | (6, 4) | (6, 3) | (6, 2) => Some((medium, 0)),
        (2, 4) | (2, 3) => Some((-fine, 0)),
        (5, 4) | (5, 3) => Some((fine, 0)),
        (2, 1) | (3, 1) | (4, 1) | (5, 1) => Some((0, medium)),
        (2, 0) | (3, 0) | (4, 0) | (5, 0) => Some((0, coarse)),
        (3, 2) | (4, 2) => Some((0, fine)),
        _ => None,
    }
}

/// The colour of a pad of a nudge page.
pub fn nudge_color_for_cell(col: u8, row: u8) -> (color: u8)
    requires
        on_grid(col, row),
    ensures
        color == nudge_color(col, row),
{
    match (col, row) {
        (2, 7) | (3, 7) | (4, 7) | (5, 7) => 45,
        (2, 6) | (3, 6) | (4, 6) | (5, 6) => 53,
        (0, 5) | (7, 5) | (0, 4) | (7, 4) | (0, 3) | (7, 3) | (0, 2) | (7, 2) => 45,
        (1, 5) | (6, 5) | (1, 4) | (6, 4) | (1, 3) | (6, 3) | (1, 2) | (6, 2) => 53,
        (3, 5) | (4, 5) | (2, 4) | (5, 4) | (2, 3) | (5, 3) | (3, 2) | (4, 2) => 72,
        (2, 1) | (3, 1) | (4, 1) | (5, 1) => 53,
        (2, 0) | (3, 0) | (4, 0) | (5, 0) => 45,
        _ => 1,
    }
}

/// A press moves pan or tilt, never both, and pads opposite each other with
/// respect to the centre move by the same amount in opposite directions.
pub proof fn law_nudges_are_symmetric(col: u8, row: u8)
    requires
        on_grid(col, row),
    ensures
        match (nudge_of(col, row), nudge_of((7 - col) as u8, (7 - row) as u8)) {
            (Some((pan, tilt)), Some((pan2, tilt2))) => {
                &&& pan == 0 || tilt == 0
                &&& pan2 == -pan
                &&& tilt2 == -tilt
            },
            (None, None) => true,
            _ => false,
        },
{
}

/// The colour of a pad tells its step, and the dim pads are those without one.
pub proof fn law_nudge_color(col: u8, row: u8)
    requires
        on_grid(col, row),
    ensures
        nudge_color(col, row) == 1 <==> nudge_of(col, row) is None,
        nudge_of(col, row) is Some ==> nudge_color(col, row) == 45 || nudge_color(col, row) == 53
            || nudge_color(col, row) == 72,
        nudge_of(col, row) matches Some((pan, tilt)) ==> {
            let size = step_units(
                if nudge_color(col, row) == 45 {
                    3
                } else if nudge_color(col, row) == 53 {
                    2
                } else {
                    1
                },
            );
            pan + tilt == size || pan + tilt == -size
        },
{
}

/// The pads of the upper and the lower arm move tilt up and down, those of the left and
/// the right arm pan to the left and the right: by a quarter at the edge, by a tenth and
/// by a twentieth further in. These are the single precision numbers nearest to a
/// quarter, a tenth and a twentieth of 2^31 units.
pub proof fn law_nudge_steps(col: u8, row: u8)
    requires
        col < 8,
        row < 8,
    ensures
        ({
            let coarse: int = 0x2000_0000;
            let medium: int = 0xCCC_CCD0;
            let fine: int = 0x666_6668;
            nudge_of(col, row) == (if 2 <= col <= 5 && row == 7 {
                Some((0int, -coarse))
            } else if 2 <= col <= 5 && row == 6 {
                Some((0int, -medium))
            } else if 3 <= col <= 4 && row == 5 {
                Some((0int, -fine))
            } else if 3 <= col <= 4 && row == 2 {
                Some((0int, fine))
            } else if 2 <= col <= 5 && row == 1 {
                Some((0int, medium))
            } else if 2 <= col <= 5 && row == 0 {
                Some((0int, coarse))
            } else if col == 0 && 2 <= row <= 5 {
                Some((-coarse, 0int))
            } else if col == 1 && 2 <= row <= 5 {
                Some((-medium, 0int))
            } else if col == 2 && 3 <= row <= 4 {
                Some((-fine, 0int))
            } else if col == 5 && 3 <= row <= 4 {
                Some((fine, 0int))
            } else if col == 6 && 2 <= row <= 5 {
                Some((medium, 0int))
            } else if col == 7 && 2 <= row <= 5 {
                Some((coarse, 0int))
            } else {
                None
            })
        }),
{
    law_spacing(0x2000_0000);
    law_spacing(0x8000_0000int / 10);
    law_spacing(0x8000_0000int / 20);
    assert(0x8000_0000int / 256 == 0x80_0000 && 0x8000_0000int % 256 == 0);
    assert(step_units(3) == 0x2000_0000);
    assert(0x8000_0000int / 160 == 0xCC_CCCC && 0x8000_0000int % 160 == 128);
    assert(step_units(2) == 0xCCC_CCD0);
    assert(step_units(1) == 0x666_6668);
}

} // verus!
