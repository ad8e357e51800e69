//! Pieces of pages that several bridges share: XY pads, faders and held pads.

use std::collections::HashMap;

use vstd::prelude::*;

use crate::config::{FaderConfig, XyConfig};
use crate::frame::{grid_columns, grid_rows};
use crate::grid::grid_note;

verus! {

broadcast use vstd::std_specs::hash::group_hash_axioms;

/// A release after this many nanoseconds (half a second) ends a long press.
pub const LONG_PRESS_NANOS: u64 = 500_000_000;

/// All faders off.
pub open spec fn faders_off() -> Seq<u8> {
    Seq::new(8, |i: int| 0u8)
}

/// The level of a fader after one of its steps was pressed: that step, or off
/// where the fader was at that step already.
pub open spec fn toggled(current: u8, step: u8) -> u8 {
    if current == step {
        0
    } else {
        step
    }
}

/// How long a pad was held; 0 where it is not known to be held.
pub open spec fn held_for(press_times: Map<u8, u64>, note: u8, now: u64) -> int {
    if press_times.contains_key(note) && press_times[note] <= now {
        now - press_times[note]
    } else {
        0
    }
}

/// Pad colours of an XY page.
pub open spec fn xy_colors(xy: XyConfig, selected: Option<(u8, u8)>) -> spec_fn(u8, u8) -> u8 {
    |col: u8, row: u8|
        if selected == Some((col, row)) {
            xy.color_active
        } else {
            xy.color_inactive
        }
}

/// Pad colours of a fader page: lit up to the level of the column.
pub open spec fn fader_colors(fader: FaderConfig, levels: Seq<u8>) -> spec_fn(u8, u8) -> u8 {
    |col: u8, row: u8|
        if levels[col as int] >= row + 1 {
            fader.color_on
        } else {
            fader.color_off
        }
}

/// Eight faders, all off.
pub fn new_levels() -> (levels: Vec<u8>)
    ensures
        levels@ == faders_off(),
{
    let levels: Vec<u8> = vec![0u8; 8];
    assert(levels@ =~= faders_off());
    levels
}

/// Ends the press of a pad at time `now` and tells how long the pad was held.
pub fn release_time(press_times: &mut HashMap<u8, u64>, note: u8, now: u64) -> (elapsed: u64)
    ensures
        final(press_times)@ == old(press_times)@.remove(note),
        elapsed == held_for(old(press_times)@, note, now),
{
    let ghost before = press_times@;
    let elapsed: u64 = match press_times.remove(&note) {
        Some(pressed) => now.saturating_sub(pressed),
        None => 0,
    };
    assert(press_times@ =~= before.remove(note));
    elapsed
}

/// Appends the pads of an XY page.
pub fn push_xy(leds: &mut Vec<(u8, u8)>, xy: &XyConfig, selected: Option<(u8, u8)>)
    ensures
        final(leds)@ == old(leds)@ + grid_rows(xy_colors(*xy, selected)),
{
    let ghost before = leds@;
    let ghost target = grid_rows(xy_colors(*xy, selected));
    let mut i: u8 = 0;
    while i < 64
        invariant
            i <= 64,
            target == grid_rows(xy_colors(*xy, selected)),
            leds@ == before + target.take(i as int),
        decreases 64 - i,
    {
        let col: u8 = i % 8;
        let row: u8 = i / 8;
        let active: bool = match selected {
            Some((c, r)) => c == col && r == row,
            None => false,
        };
        let color: u8 = if active {
            xy.color_active
        } else {
            xy.color_inactive
        };
        leds.push((grid_note(col, row), color));
        assert(target.take(i + 1) =~= target.take(i as int).push(target[i as int]));
        i = i + 1;
        assert(leds@ =~= before + target.take(i as int));
    }
    assert(target.take(64) =~= target);
}

/// Appends the pads of a fader page.
pub fn push_faders(leds: &mut Vec<(u8, u8)>, fader: &FaderConfig, levels: &Vec<u8>)
    requires
        levels@.len() == 8,
    ensures
        final(leds)@ == old(leds)@ + grid_columns(fader_colors(*fader, levels@)),
{
    let ghost before = leds@;
    let ghost target = grid_columns(fader_colors(*fader, levels@));
    let mut i: u8 = 0;
    while i < 64
        invariant
            i <= 64,
            levels@.len() == 8,
            target == grid_columns(fader_colors(*fader, levels@)),
            leds@ == before + target.take(i as int),
        decreases 64 - i,
    {
        let col: u8 = i / 8;
        let row: u8 = i % 8;
        let color: u8 = if levels[col as usize] >= row + 1 {
            fader.color_on
        } else {
            fader.color_off
        };
        leds.push((grid_note(col, row), color));
        assert(target.take(i + 1) =~= target.take(i as int).push(target[i as int]));
        i = i + 1;
        assert(leds@ =~= before + target.take(i as int));
    }
    assert(target.take(64) =~= target);
}

/// Pressing a step of a fader sets that step, or turns the fader off where it was there.
pub proof fn law_toggled(current: u8, row: u8)
    requires
        row < 8,
    ensures
        current == row + 1 ==> toggled(current, (row + 1) as u8) == 0,
        current != row + 1 ==> toggled(current, (row + 1) as u8) == row + 1,
{
}

/// There are eight faders, and all are off.
pub proof fn law_faders_off(i: int)
    requires
        0 <= i < 8,
    ensures
        faders_off().len() == 8,
        faders_off()[i] == 0,
{
}

/// A pad is held from its press to its release; a pad that was not pressed is not held.
pub proof fn law_held_for(press_times: Map<u8, u64>, note: u8, pressed: u64, released: u64)
    ensures
        pressed <= released ==> pressed + held_for(
            press_times.insert(note, pressed),
            note,
            released,
        ) == released,
        held_for(press_times.remove(note), note, released) == 0,
        LONG_PRESS_NANOS == 500_000_000,
{
}

} // verus!
