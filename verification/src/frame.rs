//! LED frames: lists of `(number, colour)` pairs, applied from left to right.

use vstd::prelude::*;

use crate::grid::{law_notes_are_distinct, note_at, on_grid};

verus! {

/// The colour that an LED has after the pairs of a frame were applied in order;
/// `None` where the frame does not touch it.
pub open spec fn shown(leds: Seq<(u8, u8)>, number: u8) -> Option<u8>
    decreases leds.len(),
{
    if leds.len() == 0 {
        None
    } else if leds.last().0 == number {
        Some(leds.last().1)
    } else {
        shown(leds.drop_last(), number)
    }
}

/// Numbers 0 to 99, all off.
pub open spec fn all_off() -> Seq<(u8, u8)> {
    Seq::new(100, |n: int| (n as u8, 0u8))
}

/// The whole grid, row by row from the bottom, each row from the left.
pub open spec fn grid_rows(color: spec_fn(u8, u8) -> u8) -> Seq<(u8, u8)> {
    Seq::new(
        64,
        |i: int|
            (
                note_at((i % 8) as u8, (i / 8) as u8),
                color((i % 8) as u8, (i / 8) as u8),
            ),
    )
}

/// The whole grid, column by column from the left, each column from the bottom.
pub open spec fn grid_columns(color: spec_fn(u8, u8) -> u8) -> Seq<(u8, u8)> {
    Seq::new(
        64,
        |i: int|
            (
                note_at((i / 8) as u8, (i % 8) as u8),
                color((i / 8) as u8, (i % 8) as u8),
            ),
    )
}

/// The page selectors of the top row; `color` maps a selector's position to its colour.
pub open spec fn selectors(color: spec_fn(int) -> u8) -> Seq<(u8, u8)> {
    Seq::new(8, |i: int| ((91 + i) as u8, color(i)))
}

/// Appends a pair for every number from 0 to 99 that turns it off.
pub fn push_all_off(leds: &mut Vec<(u8, u8)>)
    ensures
        final(leds)@ == old(leds)@ + all_off(),
{
    let ghost before = leds@;
    let mut n: u8 = 0;
    while n < 100
        invariant
            n <= 100,
            leds@ == before + all_off().take(n as int),
        decreases 100 - n,
    {
        leds.push((n, 0));
        assert(all_off().take(n + 1) =~= all_off().take(n as int).push((n, 0u8)));
        n = n + 1;
    }
    assert(all_off().take(100) =~= all_off());
}

/// Applying one frame after another: the later one wins where it touches an LED.
pub proof fn law_later_pairs_win(first: Seq<(u8, u8)>, second: Seq<(u8, u8)>, number: u8)
    ensures
        shown(first + second, number) == (match shown(second, number) {
            Some(color) => Some(color),
            None => shown(first, number),
        }),
    decreases second.len(),
{
    if second.len() == 0 {
        assert(first + second =~= first);
    } else {
        assert((first + second).drop_last() =~= first + second.drop_last());
        law_later_pairs_win(first, second.drop_last(), number);
    }
}

/// An LED that a frame names once has the colour that the frame gives it there.
pub proof fn lemma_shown_at(leds: Seq<(u8, u8)>, i: int)
    requires
        0 <= i < leds.len(),
        forall|j: int| i < j < leds.len() ==> (#[trigger] leds[j]).0 != leds[i].0,
    ensures
        shown(leds, leds[i].0) == Some(leds[i].1),
    decreases leds.len(),
{
    if i < leds.len() - 1 {
        assert(leds.drop_last()[i] == leds[i]);
        lemma_shown_at(leds.drop_last(), i);
    }
}

/// An LED that a frame does not name is left as it is.
pub proof fn lemma_not_shown(leds: Seq<(u8, u8)>, number: u8)
    requires
        forall|j: int| 0 <= j < leds.len() ==> (#[trigger] leds[j]).0 != number,
    ensures
        shown(leds, number) is None,
    decreases leds.len(),
{
    if leds.len() > 0 {
        lemma_not_shown(leds.drop_last(), number);
    }
}

/// A frame that turns everything off leaves nothing between 0 and 99 lit.
pub proof fn law_all_off(number: u8)
    ensures
        number < 100 ==> shown(all_off(), number) == Some(0u8),
        number >= 100 ==> shown(all_off(), number) is None,
{
    if number < 100 {
        assert(all_off()[number as int] == (number, 0u8));
        lemma_shown_at(all_off(), number as int);
    } else {
        lemma_not_shown(all_off(), number);
    }
}

/// A grid frame gives every pad the colour of its cell, whichever way it is walked.
pub proof fn law_grid_frames(color: spec_fn(u8, u8) -> u8, col: u8, row: u8)
    requires
        on_grid(col, row),
    ensures
        shown(grid_rows(color), note_at(col, row)) == Some(color(col, row)),
        shown(grid_columns(color), note_at(col, row)) == Some(color(col, row)),
{
    let i = row * 8 + col;
    let leds = grid_rows(color);
    assert(i % 8 == col && i / 8 == row);
    assert forall|j: int| i < j < leds.len() implies (#[trigger] leds[j]).0 != leds[i].0 by {
        law_notes_are_distinct(col, row, (j % 8) as u8, (j / 8) as u8);
    }
    lemma_shown_at(leds, i);
    let k = col * 8 + row;
    let leds = grid_columns(color);
    assert(k % 8 == row && k / 8 == col);
    assert forall|j: int| k < j < leds.len() implies (#[trigger] leds[j]).0 != leds[k].0 by {
        law_notes_are_distinct(col, row, (j / 8) as u8, (j % 8) as u8);
    }
    lemma_shown_at(leds, k);
}

/// A grid frame touches the pads of the grid and nothing else.
pub proof fn law_grid_frames_stay_on_grid(color: spec_fn(u8, u8) -> u8, number: u8)
    requires
        forall|col: u8, row: u8| on_grid(col, row) ==> #[trigger] note_at(col, row) != number,
    ensures
        shown(grid_rows(color), number) is None,
        shown(grid_columns(color), number) is None,
{
    lemma_not_shown(grid_rows(color), number);
    lemma_not_shown(grid_columns(color), number);
}

/// A selector frame gives every page selector its colour and touches nothing else.
pub proof fn law_selector_frame(color: spec_fn(int) -> u8, number: u8)
    ensures
        91 <= number <= 98 ==> shown(selectors(color), number) == Some(color(number - 91)),
        !(91 <= number <= 98) ==> shown(selectors(color), number) is None,
{
    let leds = selectors(color);
    if 91 <= number <= 98 {
        assert(leds[number - 91].0 == number);
        lemma_shown_at(leds, number - 91);
    } else {
        lemma_not_shown(leds, number);
    }
}

/// An LED has the colour of the last pair that names it.
pub proof fn law_last_pair_counts(leds: Seq<(u8, u8)>, pair: (u8, u8), number: u8)
    ensures
        shown(Seq::empty(), number) is None,
        shown(leds.push(pair), number) == (if pair.0 == number {
            Some(pair.1)
        } else {
            shown(leds, number)
        }),
{
    assert(leds.push(pair).drop_last() =~= leds);
}

} // verus!
