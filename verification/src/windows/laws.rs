//! What holds of every state and every message.

use vstd::prelude::*;

use crate::actions::{is_configured, osc, sends_no_osc, values_in_range, zero, Effect, OscValue};
use crate::config::{law_buttons_are_shown, law_find_button};
use crate::frame::{
    all_off, grid_columns, grid_rows, law_all_off, law_grid_frames, law_grid_frames_stay_on_grid,
    law_later_pairs_win, law_selector_frame, lemma_not_shown, lemma_shown_at, selectors, shown,
};
use crate::grid::{cell_of, law_notes_are_distinct, note_at, on_grid};
use crate::midi::MidiEvent;
use crate::pages::{fader_colors, faders_off, toggled, xy_colors, LONG_PRESS_NANOS};
use crate::position::{is_single, law_cell_positions, law_nudge, lemma_centre, nearest_single, ONE};
use crate::windows::handle::{
    can_take, control, custom_press, fader_press, fader_value, flash_event, note_on, nudge_press,
    nudge_start, page_switched, profile_press, rgbw_press, step, xy_press,
};
use crate::windows::nudge::{nudge_color, nudge_of};
use crate::windows::picker::{picker_cell, picker_color};
use crate::windows::render::{
    channel_color, custom_pad_colors, flash_colors, frame, mark, modifier_leds, nudge_pad_colors,
    page_frame, page_leds, palette_colors, picker_frame, picker_selector_colors, profile_leds,
    redraw, rgbw_colors, selector_colors,
};
use crate::windows::rgbw::profile_addresses;
use crate::windows::state::{
    custom_color, fader_color, flash_levels_wf, rgbw_at, surface_wf, Config, Overlay, PageConfig,
    Surface,
};

verus! {

/// Every message keeps the state valid, and the faders of a flash page at seven steps.
pub proof fn law_step_keeps_wf(config: Config, s: Surface, event: MidiEvent, now: u64)
    requires
        surface_wf(config, s),
        can_take(config, s, event),
    ensures
        surface_wf(config, step(config, s, event, now).0),
        flash_levels_wf(config, s) ==> flash_levels_wf(config, step(config, s, event, now).0),
{
    assert forall|i: int| 0 <= i < 8 implies 0 <= #[trigger] nearest_single(i * ONE, 7) <= ONE
        && is_single(nearest_single(i * ONE, 7)) by {
        law_cell_positions(i);
    }
    if let MidiEvent::NoteOn { note } = event {
        if let Some((col, row)) = cell_of(note) {
            if let Some((dp, dt)) = nudge_of(col, row) {
                lemma_centre();
                law_nudge(nudge_start(s.nudge_pan, s.current_page), dp);
                law_nudge(nudge_start(s.nudge_tilt, s.current_page), dt);
            }
        }
    }
}

/// What an LED of a page shows: the modifier button, then the page's own LEDs, then
/// the selectors, then darkness.
pub proof fn lemma_layers(config: Config, s: Surface, number: u8)
    requires
        number < 100,
    ensures
        shown(page_frame(config, s), number) == Some(
            if number == 19 {
                if s.modifier {
                    13u8
                } else {
                    1u8
                }
            } else {
                match shown(page_leds(config, s), number) {
                    Some(color) => color,
                    None => if 91 <= number <= 98 {
                        selector_colors(config.pages@, s.current_page)(number - 91)
                    } else {
                        0u8
                    },
                }
            },
        ),
{
    let colors = selector_colors(config.pages@, s.current_page);
    let back = all_off() + selectors(colors);
    let middle = back + page_leds(config, s);
    let top = modifier_leds(s.modifier);
    law_all_off(number);
    law_selector_frame(colors, number);
    law_later_pairs_win(all_off(), selectors(colors), number);
    law_later_pairs_win(back, page_leds(config, s), number);
    law_later_pairs_win(middle, top, number);
    if number == 19 {
        lemma_shown_at(top, 0);
    } else {
        lemma_not_shown(top, number);
    }
}

/// What an LED shows while a colour is chosen.
pub proof fn lemma_picker_layers(current: usize, marked: u8, number: u8)
    requires
        number < 100,
    ensures
        shown(picker_frame(current, marked), number) == Some(
            if number == 19 {
                13u8
            } else {
                match shown(mark(marked), number) {
                    Some(color) => color,
                    None => match shown(grid_rows(palette_colors()), number) {
                        Some(color) => color,
                        None => if 91 <= number <= 98 {
                            picker_selector_colors(current)(number - 91)
                        } else {
                            0u8
                        },
                    },
                }
            },
        ),
{
    let colors = picker_selector_colors(current);
    let back = all_off() + selectors(colors);
    let palette = grid_rows(palette_colors());
    let top = seq![(19u8, 13u8)];
    law_all_off(number);
    law_selector_frame(colors, number);
    law_later_pairs_win(all_off(), selectors(colors), number);
    law_later_pairs_win(back, palette, number);
    law_later_pairs_win(back + palette, mark(marked), number);
    law_later_pairs_win(back + palette + mark(marked), top, number);
    if number == 19 {
        lemma_shown_at(top, 0);
    } else {
        lemma_not_shown(top, number);
    }
}

/// Every frame sets every LED, so that nothing is left of what was shown before.
pub proof fn law_frame_sets_every_led(config: Config, s: Surface, number: u8)
    requires
        number < 100,
    ensures
        shown(frame(config, s), number) is Some,
{
    lemma_layers(config, s, number);
    match s.overlay {
        Overlay::Closed => {},
        Overlay::ColorPicker { page_idx, note } => {
            lemma_picker_layers(
                s.current_page,
                custom_color(config, s, page_idx, note),
                number,
            );
        },
        Overlay::FlashFaderColorPicker { page_idx, col } => {
            lemma_picker_layers(s.current_page, fader_color(config, s, page_idx, col), number);
        },
    }
}

/// Whether the pads of a page are drawn by one of the modes.
pub open spec fn has_mode(page: PageConfig) -> bool {
    ||| page.rgbw_mode
    ||| page.flash_fader_mode
    ||| page.custom_mode
    ||| page.nudge_xy_mode
    ||| page.xy_mode
    ||| page.fader_mode
}

/// The colour of a pad of a page with a mode.
pub open spec fn pad_color(config: Config, s: Surface, col: u8, row: u8) -> u8 {
    let page = config.pages@[s.current_page as int];
    if page.rgbw_mode {
        let channel = (col / 2) as int;
        channel_color(channel, row < s.rgbw[s.current_page].shown_levels()[channel])
    } else if page.flash_fader_mode {
        if page.fader_config is None {
            0
        } else if row == 0 && !s.flash_pressed[col as int] {
            1
        } else if row > s.fader_levels[col as int] {
            0
        } else {
            fader_color(config, s, s.current_page, col)
        }
    } else if page.custom_mode {
        custom_color(config, s, s.current_page, note_at(col, row))
    } else if page.nudge_xy_mode {
        if page.xy_config is Some {
            nudge_color(col, row)
        } else {
            0
        }
    } else if page.xy_mode {
        match page.xy_config {
            Some(xy) => if s.xy_selected == Some((col, row)) {
                xy.color_active
            } else {
                xy.color_inactive
            },
            None => 0,
        }
    } else {
        match page.fader_config {
            Some(fader) => if row < s.fader_levels[col as int] {
                fader.color_on
            } else {
                fader.color_off
            },
            None => 0,
        }
    }
}

/// On a page with a mode every pad has the colour of that mode, every page
/// selector its own, and the modifier button tells whether it is active.
pub proof fn law_page_is_shown(config: Config, s: Surface, col: u8, row: u8, index: usize)
    requires
        surface_wf(config, s),
        s.overlay is Closed,
        has_mode(config.pages@[s.current_page as int]),
        on_grid(col, row),
        index < 8,
    ensures
        shown(frame(config, s), note_at(col, row)) == Some(pad_color(config, s, col, row)),
        shown(frame(config, s), (91 + index) as u8) == Some(
            selector_colors(config.pages@, s.current_page)(index as int),
        ),
        shown(frame(config, s), 19) == Some(
            if s.modifier {
                13u8
            } else {
                1u8
            },
        ),
{
    let page = config.pages@[s.current_page as int];
    let note = note_at(col, row);
    let top = (91 + index) as u8;
    lemma_layers(config, s, note);
    lemma_layers(config, s, top);
    lemma_layers(config, s, 19);
    lemma_grid_colors(flash_colors(config, s), col, row, top);
    lemma_grid_colors(custom_pad_colors(config, s), col, row, top);
    lemma_grid_colors(nudge_pad_colors(), col, row, top);
    if page.rgbw_mode {
        let model = s.rgbw[s.current_page];
        let grid = grid_rows(rgbw_colors(model));
        let profiles = profile_leds(model.active);
        lemma_grid_colors(rgbw_colors(model), col, row, top);
        law_later_pairs_win(grid, profiles, note);
        law_later_pairs_win(grid, profiles, top);
        lemma_not_shown(profiles, note);
        lemma_not_shown(profiles, top);
    }
    if let Some(xy) = page.xy_config {
        lemma_grid_colors(xy_colors(xy, s.xy_selected), col, row, top);
    }
    if let Some(fader) = page.fader_config {
        lemma_grid_colors(fader_colors(fader, s.fader_levels), col, row, top);
    }
}

/// On a page without a mode every button has its colour, of several buttons on one pad
/// the last one. Everything else is dark but for the page selectors and the modifier
/// button.
pub proof fn law_button_page_is_shown(config: Config, s: Surface, number: u8)
    requires
        surface_wf(config, s),
        s.overlay is Closed,
        !has_mode(config.pages@[s.current_page as int]),
        number < 100,
        number != 19,
    ensures
        ({
            let buttons = config.pages@[s.current_page as int].buttons@;
            &&& forall|b: int|
                0 <= b < buttons.len() && (#[trigger] buttons[b]).note == number && (forall|
                    later: int,
                |
                    b < later < buttons.len() ==> (#[trigger] buttons[later]).note != number)
                    ==> shown(frame(config, s), number) == Some(buttons[b].color)
            &&& (forall|b: int| 0 <= b < buttons.len() ==> (#[trigger] buttons[b]).note != number)
                ==> shown(frame(config, s), number) == Some(
                if 91 <= number <= 98 {
                    selector_colors(config.pages@, s.current_page)(number - 91)
                } else {
                    0u8
                },
            )
        }),
{
    lemma_layers(config, s, number);
    law_buttons_are_shown(config.pages@[s.current_page as int].buttons@, number);
}

/// A grid frame colours the pads and leaves the page selectors alone.
proof fn lemma_grid_colors(color: spec_fn(u8, u8) -> u8, col: u8, row: u8, top: u8)
    requires
        on_grid(col, row),
        91 <= top <= 98,
    ensures
        shown(grid_rows(color), note_at(col, row)) == Some(color(col, row)),
        shown(grid_columns(color), note_at(col, row)) == Some(color(col, row)),
        shown(grid_rows(color), top) is None,
        shown(grid_columns(color), top) is None,
{
    law_grid_frames(color, col, row);
    law_grid_frames_stay_on_grid(color, top);
}

/// On an RGBW page the right column shows the profiles, the active one in its own
/// colour, below the master at the top.
pub proof fn law_profiles_are_shown(config: Config, s: Surface, profile: int)
    requires
        surface_wf(config, s),
        s.overlay is Closed,
        config.pages@[s.current_page as int].rgbw_mode,
        0 <= profile < 7,
    ensures
        shown(frame(config, s), (89 - 10 * profile) as u8) == Some(
            if profile == s.rgbw[s.current_page].active {
                13u8
            } else if profile == 0 {
                72u8
            } else {
                45u8
            },
        ),
{
    let model = s.rgbw[s.current_page];
    let number = (89 - 10 * profile) as u8;
    let grid = grid_rows(rgbw_colors(model));
    let profiles = profile_leds(model.active);
    lemma_layers(config, s, number);
    law_later_pairs_win(grid, profiles, number);
    assert(profiles[7 - profile].0 == number);
    lemma_shown_at(profiles, 7 - profile);
}

/// While a colour is chosen, every pad shows the colour that it stands for,
/// except the marked one, which is white.
pub proof fn law_picker_is_shown(config: Config, s: Surface, col: u8, row: u8)
    requires
        surface_wf(config, s),
        !(s.overlay is Closed),
        on_grid(col, row),
    ensures
        ({
            let current = match s.overlay {
                Overlay::ColorPicker { page_idx, note } => custom_color(config, s, page_idx, note),
                Overlay::FlashFaderColorPicker { page_idx, col } => fader_color(
                    config,
                    s,
                    page_idx,
                    col,
                ),
                Overlay::Closed => 0,
            };
            shown(frame(config, s), note_at(col, row)) == Some(
                if picker_cell(current) == Some((col, row)) {
                    72u8
                } else {
                    picker_color(col, row)
                },
            )
        }),
        shown(frame(config, s), 19) == Some(13u8),
{
    let current = match s.overlay {
        Overlay::ColorPicker { page_idx, note } => custom_color(config, s, page_idx, note),
        Overlay::FlashFaderColorPicker { page_idx, col } => fader_color(config, s, page_idx, col),
        Overlay::Closed => 0,
    };
    let note = note_at(col, row);
    lemma_picker_layers(s.current_page, current, note);
    lemma_picker_layers(s.current_page, current, 19);
    law_grid_frames(palette_colors(), col, row);
    match picker_cell(current) {
        Some((c, r)) => {
            law_notes_are_distinct(c, r, col, row);
            if (c, r) == (col, row) {
                lemma_shown_at(mark(current), 0);
            } else {
                lemma_not_shown(mark(current), note);
            }
        },
        None => {
            lemma_not_shown(mark(current), note);
        },
    }
}

/// Choosing a colour for a custom pad or a fader: the pad or fader has that colour
/// afterwards, no other one changes, the choice is saved, and the picker is closed.
pub proof fn law_chosen_color_is_used(
    config: Config,
    s: Surface,
    col: u8,
    row: u8,
    now: u64,
    page: usize,
    number: u8,
)
    requires
        surface_wf(config, s),
        on_grid(col, row),
    ensures
        ({
            let (after, list) = note_on(config, s, note_at(col, row), now);
            match s.overlay {
                Overlay::ColorPicker { page_idx, note } => {
                    &&& custom_color(config, after, page_idx, note) == picker_color(col, row)
                    &&& (page, number) != (page_idx, note) ==> custom_color(
                        config,
                        after,
                        page,
                        number,
                    ) == custom_color(config, s, page, number)
                    &&& fader_color(config, after, page, number) == fader_color(
                        config,
                        s,
                        page,
                        number,
                    )
                    &&& list == seq![Effect::SaveColors, redraw(config, after)]
                    &&& after.overlay is Closed
                },
                Overlay::FlashFaderColorPicker { page_idx, col: fader } => {
                    &&& fader_color(config, after, page_idx, fader) == picker_color(col, row)
                    &&& (page, number) != (page_idx, fader) ==> fader_color(
                        config,
                        after,
                        page,
                        number,
                    ) == fader_color(config, s, page, number)
                    &&& custom_color(config, after, page, number) == custom_color(
                        config,
                        s,
                        page,
                        number,
                    )
                    &&& list == seq![Effect::SaveFaderColors, redraw(config, after)]
                    &&& after.overlay is Closed
                },
                Overlay::Closed => true,
            }
        }),
{
}

/// While the colour picker is open no message sends OSC. A press while the modifier
/// is active sends none, and neither does any button beside the grid.
pub proof fn law_choosing_sends_no_osc(config: Config, s: Surface, event: MidiEvent, now: u64)
    requires
        surface_wf(config, s),
        !(s.overlay is Closed) || (s.modifier && event is NoteOn) || event is Control,
    ensures
        sends_no_osc(step(config, s, event, now).1),
{
}

/// Showing another profile sends no OSC.
pub proof fn law_profile_switch_sends_no_osc(config: Config, s: Surface, index: usize)
    ensures
        sends_no_osc(profile_press(config, s, index).1),
{
}

/// What is pressed on the master goes to every fixture of that channel, what is
/// pressed on a fixture to that fixture, and nothing else is sent.
pub proof fn law_rgbw_press_sends(config: Config, s: Surface, col: u8, row: u8)
    requires
        rgbw_at(s.rgbw, s.current_page).wf(),
        on_grid(col, row),
    ensures
        ({
            let model = rgbw_at(s.rgbw, s.current_page);
            let channel = (col / 2) as int;
            let (after, list) = rgbw_press(config, s, note_at(col, row));
            let level = rgbw_at(after.rgbw, s.current_page).shown_levels()[channel];
            &&& level == toggled(model.shown_levels()[channel], (row + 1) as u8)
            &&& config.pages@[s.current_page as int].rgbw_config matches Some(rgbw) ==> {
                let addresses = profile_addresses(rgbw, model.active, channel);
                &&& list.len() == addresses.len() + 2
                &&& list[addresses.len() as int] is SaveRgbw
                &&& list.last() == redraw(config, after)
                &&& forall|i: int|
                    0 <= i < addresses.len() ==> #[trigger] list[i] == osc(
                        addresses[i]@,
                        OscValue::Ratio { num: level, den: 8 },
                    )
            }
        }),
{
}

/// A flash button: a press sends the fader's level and a release sends 0, the level
/// itself stays, and the button is held in between.
pub proof fn law_flash(config: Config, s: Surface, col: u8)
    requires
        surface_wf(config, s),
        col < 8,
        config.pages@[s.current_page as int].fader_config matches Some(fader) && col
            < fader.addresses@.len(),
    ensures
        ({
            let note = note_at(col, 0);
            let address = config.pages@[s.current_page as int].fader_config->0.addresses@[
                col as int
            ]@;
            let (held, on) = flash_event(config, s, note, true);
            let (after, off) = flash_event(config, held, note, false);
            &&& held.fader_levels == s.fader_levels
            &&& held.flash_pressed[col as int]
            &&& on == seq![
                osc(
                    address,
                    fader_value(s.fader_levels[col as int], 7),
                ),
                redraw(config, held),
            ]
            &&& after.fader_levels == s.fader_levels
            &&& !after.flash_pressed[col as int]
            &&& off == seq![osc(address, zero()), redraw(config, after)]
        }),
{
    let note = note_at(col, 0);
    let address = config.pages@[s.current_page as int].fader_config->0.addresses@[col as int]@;
    let (held, on) = flash_event(config, s, note, true);
    let (after, off) = flash_event(config, held, note, false);
    assert(on =~= seq![
        osc(address, fader_value(s.fader_levels[col as int], 7)),
        redraw(config, held),
    ]);
    assert(off =~= seq![osc(address, zero()), redraw(config, after)]);
}

/// Setting the level of a flash fader sends no OSC.
pub proof fn law_flash_level_sends_no_osc(
    config: Config,
    s: Surface,
    col: u8,
    row: u8,
    pressed: bool,
)
    requires
        on_grid(col, row),
        row > 0,
    ensures
        sends_no_osc(flash_event(config, s, note_at(col, row), pressed).1),
{
}

/// A pad of a custom page, pressed and released: after half a second its colour
/// picker opens, after less it sends its message.
pub proof fn law_long_press(config: Config, s: Surface, note: u8, pressed: u64, released: u64)
    requires
        surface_wf(config, s),
        s.overlay is Closed,
        !s.modifier,
        config.pages@[s.current_page as int].custom_mode,
        !config.pages@[s.current_page as int].flash_fader_mode,
        pressed <= released,
    ensures
        ({
            let held = step(config, s, MidiEvent::NoteOn { note }, pressed).0;
            let (after, list) = step(config, held, MidiEvent::NoteOff { note }, released);
            if released - pressed >= LONG_PRESS_NANOS {
                &&& after.overlay == Overlay::ColorPicker { page_idx: s.current_page, note }
                &&& list == seq![redraw(config, after)]
            } else {
                &&& after.overlay is Closed
                &&& list == custom_press(config, s, note)
            }
        }),
{
}

/// A pad above the bottom row of a flash page, pressed and released: after half a
/// second the colour picker of its fader opens, after less nothing more happens.
pub proof fn law_long_press_on_fader(
    config: Config,
    s: Surface,
    col: u8,
    row: u8,
    pressed: u64,
    released: u64,
)
    requires
        surface_wf(config, s),
        s.overlay is Closed,
        !s.modifier,
        config.pages@[s.current_page as int].flash_fader_mode,
        !config.pages@[s.current_page as int].custom_mode,
        on_grid(col, row),
        row > 0,
        pressed <= released,
    ensures
        ({
            let note = note_at(col, row);
            let held = step(config, s, MidiEvent::NoteOn { note }, pressed).0;
            let (after, list) = step(config, held, MidiEvent::NoteOff { note }, released);
            if released - pressed >= LONG_PRESS_NANOS {
                &&& after.overlay == Overlay::FlashFaderColorPicker {
                    page_idx: s.current_page,
                    col,
                }
                &&& list == seq![redraw(config, after)]
            } else {
                after.overlay is Closed && list.len() == 0
            }
        }),
{
}

/// Positions belong to their page: a press never changes where nudges of another page
/// start.
pub proof fn law_positions_by_page(config: Config, s: Surface, note: u8, page: usize)
    requires
        page != s.current_page,
    ensures
        nudge_start(nudge_press(config, s, note).0.nudge_pan, page) == nudge_start(
            s.nudge_pan,
            page,
        ),
        nudge_start(nudge_press(config, s, note).0.nudge_tilt, page) == nudge_start(
            s.nudge_tilt,
            page,
        ),
        nudge_start(xy_press(config, s, note).0.nudge_pan, page) == nudge_start(s.nudge_pan, page),
        nudge_start(xy_press(config, s, note).0.nudge_tilt, page) == nudge_start(
            s.nudge_tilt,
            page,
        ),
{
}

/// The dim pads of a nudge page have no function.
pub proof fn law_dim_pads(config: Config, s: Surface, col: u8, row: u8)
    requires
        on_grid(col, row),
        nudge_color(col, row) == 1,
    ensures
        nudge_press(config, s, note_at(col, row)).0 == s,
        nudge_press(config, s, note_at(col, row)).1.len() == 0,
{
}

/// Pressing the same fader pad twice leaves the fader off, or at that step again
/// where it was there before.
pub proof fn law_fader_pad_twice(config: Config, s: Surface, col: u8, row: u8)
    requires
        surface_wf(config, s),
        on_grid(col, row),
    ensures
        ({
            let note = note_at(col, row);
            let once = fader_press(config, s, note).0;
            let twice = fader_press(config, once, note).0;
            twice == Surface {
                fader_levels: s.fader_levels.update(
                    col as int,
                    if s.fader_levels[col as int] == row + 1 {
                        (row + 1) as u8
                    } else {
                        0u8
                    },
                ),
                ..s
            }
        }),
{
    let note = note_at(col, row);
    let once = fader_press(config, s, note).0;
    let twice = fader_press(config, once, note).0;
    assert(twice.fader_levels =~= s.fader_levels.update(
        col as int,
        if s.fader_levels[col as int] == row + 1 {
            (row + 1) as u8
        } else {
            0u8
        },
    ));
}

/// Pressing the same RGBW pad twice leaves the channel off, or at that step again
/// where it was there before; no other level changes.
pub proof fn law_rgbw_pad_twice(config: Config, s: Surface, col: u8, row: u8)
    requires
        rgbw_at(s.rgbw, s.current_page).wf(),
        on_grid(col, row),
    ensures
        ({
            let note = note_at(col, row);
            let channel = (col / 2) as int;
            let model = rgbw_at(s.rgbw, s.current_page);
            let once = rgbw_press(config, s, note).0;
            let twice = rgbw_press(config, once, note).0;
            twice.rgbw == s.rgbw.insert(
                s.current_page,
                model.with_level(
                    channel,
                    if model.shown_levels()[channel] == row + 1 {
                        (row + 1) as u8
                    } else {
                        0u8
                    },
                ),
            )
        }),
{
    let note = note_at(col, row);
    let channel = (col / 2) as int;
    let model = rgbw_at(s.rgbw, s.current_page);
    let once = rgbw_press(config, s, note).0;
    let twice = rgbw_press(config, once, note).0;
    let level = if model.shown_levels()[channel] == row + 1 {
        (row + 1) as u8
    } else {
        0u8
    };
    let again = twice.rgbw[s.current_page];
    assert(again.levels[model.active] =~= model.with_level(channel, level).levels[model.active]);
    assert(again.levels =~= model.with_level(channel, level).levels);
    assert(twice.rgbw =~= s.rgbw.insert(s.current_page, model.with_level(channel, level)));
}

/// A page switch turns the faders off, forgets the selected cell and the held
/// pads, and keeps colours, nudge positions and the profiles of all pages.
pub proof fn law_page_switch(config: Config, s: Surface, index: usize)
    requires
        surface_wf(config, s),
        index < config.pages@.len(),
    ensures
        ({
            let after = page_switched(config, s, index);
            &&& after.current_page == index
            &&& after.fader_levels == faders_off()
            &&& after.xy_selected is None
            &&& after.press_times == Map::<u8, u64>::empty()
            &&& after.custom_colors == s.custom_colors
            &&& after.fader_colors == s.fader_colors
            &&& after.nudge_pan == s.nudge_pan
            &&& after.nudge_tilt == s.nudge_tilt
            &&& forall|page: usize| #[trigger]
                s.rgbw.contains_key(page) ==> after.rgbw.contains_key(page) && after.rgbw[page]
                    == s.rgbw[page]
        }),
{
}

/// Where the modifier is not active, pressing its button makes it active, and the
/// release after that undoes the press.
pub proof fn law_modifier(config: Config, s: Surface, value: u8)
    requires
        value > 0,
        !s.modifier,
    ensures
        control(config, s, 19, value).0 == (Surface { modifier: true, ..s }),
        control(config, control(config, s, 19, value).0, 19, 0).0 == s,
{
}

/// The buttons' values come from the configuration file.
pub open spec fn values_are_configured(config: Config) -> bool {
    forall|p: int, b: int|
        0 <= p < config.pages@.len() && 0 <= b < config.pages@[p].buttons@.len() ==> is_configured(
            (#[trigger] config.pages@[p].buttons@[b]).osc_value,
        )
}

/// Every OSC value is between 0 and 1, unless the configuration gives it.
pub proof fn law_values_in_range(config: Config, s: Surface, event: MidiEvent, now: u64)
    requires
        surface_wf(config, s),
        flash_levels_wf(config, s),
        values_are_configured(config),
    ensures
        values_in_range(step(config, s, event, now).1),
{
    let page = config.pages@[s.current_page as int];
    let note = match event {
        MidiEvent::NoteOn { note } => note,
        MidiEvent::NoteOff { note } => note,
        _ => 0,
    };
    law_find_button(page.buttons@, note);
    lemma_centre();
    if let Some((col, row)) = cell_of(note) {
        assert(s.fader_levels[col as int] <= 8);
        if let Some((dp, dt)) = nudge_of(col, row) {
            law_nudge(nudge_start(s.nudge_pan, s.current_page), dp);
            law_nudge(nudge_start(s.nudge_tilt, s.current_page), dt);
        }
    }
}

} // verus!
