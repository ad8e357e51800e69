//! What holds of every state and every message.

use vstd::prelude::*;

use crate::actions::{in_unit_range, is_configured, osc, values_in_range, Effect};
use crate::frame::{
    grid_columns, grid_rows, law_grid_frames, law_grid_frames_stay_on_grid, law_later_pairs_win,
    law_selector_frame, lemma_not_shown, lemma_shown_at, selectors, shown,
};
use crate::grid::{cell_of, note_at, on_grid, right_index, selector_index};
use crate::midi::MidiEvent;
use crate::pages::{faders_off, xy_colors, LONG_PRESS_NANOS};
use crate::paps::beat::{beat_started, law_palettes_go_round, law_start_is_valid};
use crate::paps::handle::{
    beat, control, custom_press, fader_press, light, note_on, page_switched, rgb_press, right_press,
    step,
};
use crate::paps::picker::picker_color;
use crate::paps::render::{
    beat_colors, button_leds, custom_pad_colors, fader_colors, frame, grid_leds, is_on,
    palette_colors, redraw, rgb_leds, right_leds, selector_colors,
};
use crate::paps::state::{
    custom_color, find_button, law_find_button, surface_wf, ButtonConfig, Config, Overlay,
    PageConfig, Surface, XyAdjustMode,
};

verus! {

/// Every message keeps the state valid.
pub proof fn law_step_keeps_wf(config: Config, s: Surface, event: MidiEvent, now: u64)
    requires
        surface_wf(config, s),
    ensures
        surface_wf(config, step(config, s, event, now).0),
{
    if let Some(model) = s.beat {
        law_palettes_go_round(model);
    }
    if let MidiEvent::Control { number, .. } = event {
        if let Some(index) = selector_index(number) {
            if index < config.pages@.len() {
                if let Some(chase) = config.pages@[index as int].beat_config {
                    law_start_is_valid(chase);
                }
            }
        }
    }
}

/// Whether the pads of a page are drawn by one of the modes.
pub open spec fn has_grid(page: PageConfig) -> bool {
    page.custom_mode || (!page.rgb_mode && !page.flash_mode && !page.move_mode && (page.beat_mode
        || page.xy_mode || page.fader_mode))
}

/// No button of the page lies on the LED with this number.
pub open spec fn no_button_at(page: PageConfig, number: u8) -> bool {
    forall|b: int| 0 <= b < page.buttons@.len() ==> (#[trigger] page.buttons@[b]).note != number
}

/// The colour of a button of the right column.
pub open spec fn right_color(page: PageConfig, mode: XyAdjustMode, number: u8) -> u8 {
    if page.xy_mode {
        if number == 89 {
            if mode is Coarse {
                21
            } else {
                13
            }
        } else if (number == 79 || number == 69) && mode is Fine {
            45
        } else {
            0
        }
    } else if page.beat_mode {
        if number == 59 {
            5
        } else if number == 49 {
            57
        } else if number == 39 {
            53
        } else {
            0
        }
    } else {
        0
    }
}

/// What an LED of a page shows: the grid, then the right column, then the selectors.
proof fn lemma_layers(config: Config, s: Surface, number: u8)
    requires
        s.overlay is Closed,
    ensures
        shown(frame(config, s), number) == (match shown(grid_leds(config, s), number) {
            Some(color) => Some(color),
            None => if right_index(number) is Some {
                Some(right_color(config.pages@[s.current_page as int], s.adjust_mode, number))
            } else if 91 <= number <= 98 {
                Some(selector_colors(config.pages@, s.current_page)(number - 91))
            } else {
                None
            },
        }),
{
    let page = config.pages@[s.current_page as int];
    let colors = selector_colors(config.pages@, s.current_page);
    let right = right_leds(page, s.adjust_mode);
    law_selector_frame(colors, number);
    law_later_pairs_win(selectors(colors), right, number);
    law_later_pairs_win(selectors(colors) + right, grid_leds(config, s), number);
    if right_index(number) is Some {
        let i: int = if page.xy_mode {
            8 - (number / 10) as int
        } else if page.beat_mode {
            if number == 59 {
                0
            } else if number == 49 {
                1
            } else if number == 39 {
                2
            } else if number == 89 {
                3
            } else if number == 79 {
                4
            } else if number == 69 {
                5
            } else if number == 29 {
                6
            } else {
                7
            }
        } else {
            number / 10 - 1
        };
        assert(right[i].0 == number);
        lemma_shown_at(right, i);
    } else {
        lemma_not_shown(right, number);
    }
}

/// A grid frame colours the pads and nothing else.
proof fn lemma_grid_colors(color: spec_fn(u8, u8) -> u8, number: u8)
    ensures
        match cell_of(number) {
            Some((col, row)) => number % 10 != 0 ==> shown(grid_rows(color), number) == Some(
                color(col, row),
            ) && shown(grid_columns(color), number) == Some(color(col, row)),
            None => shown(grid_rows(color), number) is None && shown(
                grid_columns(color),
                number,
            ) is None,
        },
{
    match cell_of(number) {
        Some((col, row)) => {
            law_grid_frames(color, col, row);
        },
        None => {
            law_grid_frames_stay_on_grid(color, number);
        },
    }
}

/// While a page is shown, every page selector has its colour and every button of the
/// right column tells what it does, unless a button that is drawn lies there.
pub proof fn law_controls_are_shown(config: Config, s: Surface, number: u8)
    requires
        surface_wf(config, s),
        s.overlay is Closed,
        has_grid(config.pages@[s.current_page as int]) || no_button_at(
            config.pages@[s.current_page as int],
            number,
        ),
    ensures
        selector_index(number) matches Some(index) ==> shown(frame(config, s), number) == Some(
            selector_colors(config.pages@, s.current_page)(index as int),
        ),
        right_index(number) is Some ==> shown(frame(config, s), number) == Some(
            right_color(config.pages@[s.current_page as int], s.adjust_mode, number),
        ),
{
    let page = config.pages@[s.current_page as int];
    lemma_layers(config, s, number);
    if selector_index(number) is Some || right_index(number) is Some {
        lemma_grid_colors(custom_pad_colors(config, s), number);
        lemma_grid_colors(beat_colors(), number);
        if let Some(xy) = page.xy_config {
            lemma_grid_colors(xy_colors(xy, s.xy_selected), number);
        }
        if let Some(fader) = page.fader_config {
            lemma_grid_colors(fader_colors(fader, s.fader_levels), number);
        }
        if !has_grid(page) {
            assert forall|b: int| 0 <= b < rgb_leds(page.buttons@, s.rgb_states).len() implies (
            #[trigger] rgb_leds(page.buttons@, s.rgb_states)[b]).0 != number by {
                assert(page.buttons@[b].note != number);
            }
            lemma_not_shown(rgb_leds(page.buttons@, s.rgb_states), number);
            assert forall|b: int| 0 <= b < button_leds(page.buttons@).len() implies (
            #[trigger] button_leds(page.buttons@)[b]).0 != number by {
                assert(page.buttons@[b].note != number);
            }
            lemma_not_shown(button_leds(page.buttons@), number);
        }
    }
}

/// The colour of a pad of a page whose grid is drawn by a mode; none where the mode
/// lacks its configuration.
pub open spec fn pad_color(config: Config, s: Surface, col: u8, row: u8) -> Option<u8> {
    let page = config.pages@[s.current_page as int];
    if page.custom_mode {
        Some(custom_color(config, s, s.current_page, note_at(col, row)))
    } else if page.beat_mode {
        Some(
            if row == 0 {
                96
            } else {
                0
            },
        )
    } else if page.xy_mode {
        match page.xy_config {
            Some(xy) => Some(
                if s.xy_selected == Some((col, row)) {
                    xy.color_active
                } else {
                    xy.color_inactive
                },
            ),
            None => None,
        }
    } else {
        match page.fader_config {
            Some(fader) => Some(
                if row < s.fader_levels[col as int] {
                    if col < 4 {
                        fader.color_halogen_on
                    } else {
                        fader.color_rgb_on
                    }
                } else {
                    if col < 4 {
                        fader.color_halogen_off
                    } else {
                        fader.color_rgb_off
                    }
                },
            ),
            None => None,
        }
    }
}

/// On custom, beat, XY and fader pages every pad has the colour of that mode.
pub proof fn law_pads_are_shown(config: Config, s: Surface, col: u8, row: u8)
    requires
        surface_wf(config, s),
        s.overlay is Closed,
        has_grid(config.pages@[s.current_page as int]),
        on_grid(col, row),
    ensures
        shown(frame(config, s), note_at(col, row)) == pad_color(config, s, col, row),
{
    let page = config.pages@[s.current_page as int];
    let note = note_at(col, row);
    lemma_layers(config, s, note);
    lemma_grid_colors(custom_pad_colors(config, s), note);
    lemma_grid_colors(beat_colors(), note);
    if let Some(xy) = page.xy_config {
        lemma_grid_colors(xy_colors(xy, s.xy_selected), note);
    }
    if let Some(fader) = page.fader_config {
        lemma_grid_colors(fader_colors(fader, s.fader_levels), note);
    }
}

/// On RGB, flash, move and normal pages every button is lit: an RGB button by whether
/// it is on, any other in its on colour. Of several buttons on one pad the last counts.
pub proof fn law_buttons_are_shown(config: Config, s: Surface, b: int)
    requires
        surface_wf(config, s),
        s.overlay is Closed,
        !has_grid(config.pages@[s.current_page as int]),
        0 <= b < config.pages@[s.current_page as int].buttons@.len(),
        forall|later: int|
            b < later < config.pages@[s.current_page as int].buttons@.len() ==> (
            #[trigger] config.pages@[s.current_page as int].buttons@[later]).note
                != config.pages@[s.current_page as int].buttons@[b].note,
    ensures
        ({
            let page = config.pages@[s.current_page as int];
            let button = page.buttons@[b];
            shown(frame(config, s), button.note) == Some(
                if page.rgb_mode && !is_on(s.rgb_states, button.note) {
                    button.color_off
                } else {
                    button.color_on
                },
            )
        }),
{
    let page = config.pages@[s.current_page as int];
    let leds = if page.rgb_mode {
        rgb_leds(page.buttons@, s.rgb_states)
    } else {
        button_leds(page.buttons@)
    };
    lemma_layers(config, s, page.buttons@[b].note);
    assert forall|j: int| b < j < leds.len() implies (#[trigger] leds[j]).0 != leds[b].0 by {
        assert(page.buttons@[j].note != page.buttons@[b].note);
    }
    lemma_shown_at(leds, b);
}

/// While a colour is chosen, every pad shows the colour that it stands for.
pub proof fn law_picker_is_shown(config: Config, s: Surface, col: u8, row: u8)
    requires
        s.overlay is ColorPicker,
        on_grid(col, row),
    ensures
        shown(frame(config, s), note_at(col, row)) == Some(picker_color(col, row)),
{
    law_grid_frames(palette_colors(), col, row);
}

/// Choosing a colour: the pad has that colour afterwards, no other one changes, and
/// the picker is closed.
pub proof fn law_chosen_color_is_used(
    config: Config,
    s: Surface,
    col: u8,
    row: u8,
    now: u64,
    page: usize,
    number: u8,
)
    requires
        s.overlay is ColorPicker,
        on_grid(col, row),
    ensures
        ({
            let (after, list) = note_on(config, s, note_at(col, row), now);
            s.overlay matches Overlay::ColorPicker { page_idx, note } && {
                &&& custom_color(config, after, page_idx, note) == picker_color(col, row)
                &&& (page, number) != (page_idx, note) ==> custom_color(
                    config,
                    after,
                    page,
                    number,
                ) == custom_color(config, s, page, number)
                &&& after.overlay is Closed
                &&& list == seq![redraw(config, after)]
            }
        }),
{
}

/// A pad of a custom page, pressed and released: after half a second its colour
/// picker opens, after less it sends its message.
pub proof fn law_long_press(config: Config, s: Surface, note: u8, pressed: u64, released: u64)
    requires
        surface_wf(config, s),
        s.overlay is Closed,
        config.pages@[s.current_page as int].custom_mode,
        !config.pages@[s.current_page as int].flash_mode,
        right_index(note) is None,
        pressed <= released,
    ensures
        ({
            let held = step(config, s, MidiEvent::NoteOn { note }, pressed).0;
            let (after, list) = step(config, held, MidiEvent::NoteOff { note }, released);
            if released - pressed >= LONG_PRESS_NANOS {
                &&& after.overlay == Overlay::ColorPicker { page_idx: s.current_page, note }
                &&& list == seq![redraw(config, after)]
            } else {
                &&& after.overlay is Closed
                &&& list == custom_press(config, s, note)
            }
        }),
{
}

/// Pressing an RGB pad twice leaves every pad as it was, and has sent the pad's two
/// values.
pub proof fn law_rgb_pad_twice(config: Config, s: Surface, note: u8, other: u8)
    requires
        surface_wf(config, s),
    ensures
        ({
            let (once, first) = rgb_press(config, s, note);
            let (twice, second) = rgb_press(config, once, note);
            &&& is_on(twice.rgb_states, other) == is_on(s.rgb_states, other)
            &&& other != note ==> is_on(once.rgb_states, other) == is_on(s.rgb_states, other)
            &&& find_button(
                config.pages@[s.current_page as int].buttons@,
                note,
            ) matches Some(button) ==> {
                let on = seq![
                    osc(button.osc_address@, button.osc_value),
                    light(note, button.color_on),
                ];
                let off = seq![
                    osc(button.osc_address@, button.osc_value_off),
                    light(note, button.color_off),
                ];
                &&& is_on(once.rgb_states, note) != is_on(s.rgb_states, note)
                &&& if is_on(s.rgb_states, note) {
                    first == off && second == on
                } else {
                    first == on && second == off
                }
            }
        }),
{
}

/// A flash pad sends its value and is white while it is held; released it sends its
/// other value and has its colour again.
pub proof fn law_flash(config: Config, s: Surface, note: u8, pressed: u64, released: u64)
    requires
        surface_wf(config, s),
        s.overlay is Closed,
        config.pages@[s.current_page as int].flash_mode,
        !config.pages@[s.current_page as int].rgb_mode,
        right_index(note) is None,
    ensures
        ({
            let (held, on) = step(config, s, MidiEvent::NoteOn { note }, pressed);
            let (after, off) = step(config, held, MidiEvent::NoteOff { note }, released);
            &&& after == Surface { press_times: s.press_times.remove(note), ..s }
            &&& match find_button(config.pages@[s.current_page as int].buttons@, note) {
                Some(button) => {
                    &&& on == seq![osc(button.osc_address@, button.osc_value), light(note, 72)]
                    &&& off == seq![
                        osc(button.osc_address@, button.osc_value_off),
                        light(note, button.color_on),
                    ]
                },
                None => on.len() == 0 && off.len() == 0,
            }
        }),
{
    let held = step(config, s, MidiEvent::NoteOn { note }, pressed).0;
    assert(held.press_times.remove(note) =~= s.press_times.remove(note));
}

/// On RGB, move, beat, XY, fader and normal pages a release does nothing but end the
/// press.
pub proof fn law_release_is_silent(config: Config, s: Surface, note: u8, now: u64)
    requires
        !config.pages@[s.current_page as int].flash_mode,
        !config.pages@[s.current_page as int].custom_mode,
    ensures
        step(config, s, MidiEvent::NoteOff { note }, now) == (
            Surface { press_times: s.press_times.remove(note), ..s },
            Seq::<Effect>::empty(),
        ),
{
}

/// Changing the mode of an XY page twice changes nothing. In fine mode a larger step
/// can be made smaller again and the other way round, and the step stays between 1
/// and 4.
pub proof fn law_adjustments(config: Config, s: Surface, now: u64)
    requires
        surface_wf(config, s),
        config.pages@[s.current_page as int].xy_mode,
    ensures
        right_press(config, right_press(config, s, 89, now).0, 89, now).0 == s,
        right_press(config, s, 89, now).0.adjust_mode != s.adjust_mode,
        s.adjust_mode is Fine && s.fine_step < 4 ==> right_press(
            config,
            right_press(config, s, 79, now).0,
            69,
            now,
        ).0 == s,
        s.adjust_mode is Fine && s.fine_step > 1 ==> right_press(
            config,
            right_press(config, s, 69, now).0,
            79,
            now,
        ).0 == s,
        s.adjust_mode is Coarse ==> right_press(config, s, 79, now).0 == s && right_press(
            config,
            s,
            69,
            now,
        ).0 == s,
        1 <= right_press(config, s, 79, now).0.fine_step <= 4,
        1 <= right_press(config, s, 69, now).0.fine_step <= 4,
{
}

/// A page switch turns the faders off, forgets the selected cell and the RGB pads that
/// are on, and ends the chase. A beat page starts a chase of its own. Chosen colours
/// and the XY adjustment stay.
pub proof fn law_page_switch(config: Config, s: Surface, index: usize)
    requires
        surface_wf(config, s),
        index < config.pages@.len(),
    ensures
        ({
            let page = config.pages@[index as int];
            let after = page_switched(config, s, index).0;
            &&& after.current_page == index
            &&& after.fader_levels == faders_off()
            &&& after.xy_selected is None
            &&& forall|note: u8| !is_on(after.rgb_states, note)
            &&& beat(after, s.beat_epoch) is None
            &&& beat(after, after.beat_epoch) is Some <==> {
                page.beat_mode && page.beat_config is Some
            }
            &&& page.beat_mode ==> (page.beat_config matches Some(config) ==> after.beat == Some(
                beat_started(config),
            ))
            &&& after.custom_colors == s.custom_colors
            &&& after.adjust_mode == s.adjust_mode
            &&& after.fine_step == s.fine_step
        }),
{
}

/// While the colour picker is open, a page selector only closes it.
pub proof fn law_selector_closes_picker(config: Config, s: Surface, number: u8, value: u8)
    requires
        s.overlay is ColorPicker,
        selector_index(number) is Some,
        value > 0,
    ensures
        control(config, s, number, value) == (
            Surface { overlay: Overlay::Closed, ..s },
            seq![redraw(config, Surface { overlay: Overlay::Closed, ..s })],
        ),
{
}

/// The thread of a chase that has ended never ticks again, whatever messages and beats
/// come in, until the count of epochs starts over.
pub proof fn law_ended_chase_stays_ended(
    config: Config,
    s: Surface,
    event: MidiEvent,
    now: u64,
    epoch: u64,
    other: u64,
)
    requires
        epoch <= s.beat_epoch < u64::MAX,
        beat(s, epoch) is None,
    ensures
        beat(step(config, s, event, now).0, epoch) is None,
        epoch <= step(config, s, event, now).0.beat_epoch,
        beat(s, other) matches Some((after, _)) ==> beat(after, epoch) is None && epoch
            <= after.beat_epoch < u64::MAX,
{
}

/// Only page selectors start or end a chase.
pub proof fn law_chase_goes_on(config: Config, s: Surface, event: MidiEvent, now: u64, epoch: u64)
    requires
        surface_wf(config, s),
        !(event is Control),
    ensures
        beat(step(config, s, event, now).0, epoch) is Some <==> beat(s, epoch) is Some,
{
}

/// A beat changes nothing but the chase and keeps the state valid.
pub proof fn law_beat_keeps_wf(config: Config, s: Surface, epoch: u64)
    requires
        surface_wf(config, s),
    ensures
        beat(s, epoch) matches Some((after, _)) ==> surface_wf(config, after) && after == (Surface {
            beat: after.beat,
            ..s
        }),
{
    if let Some(model) = s.beat {
        if model.palette().len() > 0 {
            vstd::arithmetic::div_mod::lemma_mod_bound(
                model.step + 1,
                model.palette().len() as int,
            );
        }
        if model.addresses.len() > 0 {
            vstd::arithmetic::div_mod::lemma_mod_bound(
                model.fixture + 1,
                model.addresses.len() as int,
            );
        }
    }
}

/// Pressing the same fader pad twice leaves the fader off, or at that step again
/// where it was there before.
pub proof fn law_fader_pad_twice(config: Config, s: Surface, col: u8, row: u8)
    requires
        surface_wf(config, s),
        on_grid(col, row),
    ensures
        ({
            let note = note_at(col, row);
            let once = fader_press(config, s, note).0;
            let twice = fader_press(config, once, note).0;
            twice == Surface {
                fader_levels: s.fader_levels.update(
                    col as int,
                    if s.fader_levels[col as int] == row + 1 {
                        (row + 1) as u8
                    } else {
                        0u8
                    },
                ),
                ..s
            }
        }),
{
    let note = note_at(col, row);
    let once = fader_press(config, s, note).0;
    let twice = fader_press(config, once, note).0;
    assert(twice.fader_levels =~= s.fader_levels.update(
        col as int,
        if s.fader_levels[col as int] == row + 1 {
            (row + 1) as u8
        } else {
            0u8
        },
    ));
}

/// The values of a button come from the configuration file or lie between 0 and 1.
pub open spec fn button_values_allowed(button: ButtonConfig) -> bool {
    &&& is_configured(button.osc_value) || in_unit_range(button.osc_value)
    &&& is_configured(button.osc_value_off) || in_unit_range(button.osc_value_off)
}

/// The values of all buttons come from the configuration file or lie between 0 and 1.
pub open spec fn values_allowed(config: Config) -> bool {
    forall|p: int, b: int|
        0 <= p < config.pages@.len() && 0 <= b < config.pages@[p].buttons@.len()
            ==> button_values_allowed(#[trigger] config.pages@[p].buttons@[b])
}

/// Every OSC value is between 0 and 1, unless the configuration gives it.
pub proof fn law_values_in_range(config: Config, s: Surface, event: MidiEvent, now: u64)
    requires
        surface_wf(config, s),
        values_allowed(config),
    ensures
        values_in_range(step(config, s, event, now).1),
{
    let page = config.pages@[s.current_page as int];
    let note = match event {
        MidiEvent::NoteOn { note } => note,
        MidiEvent::NoteOff { note } => note,
        _ => 0,
    };
    law_find_button(page.buttons@, note);
    if let Some((col, row)) = cell_of(note) {
        assert(s.fader_levels[col as int] <= 8);
    }
}

/// Every value of a beat is between 0 and 1.
pub proof fn law_beat_values_in_range(s: Surface, epoch: u64)
    ensures
        beat(s, epoch) matches Some((_, list)) ==> values_in_range(list),
{
}

} // verus!
