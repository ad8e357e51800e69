//! LED frames.

use vstd::prelude::*;

use crate::actions::Effect;
use crate::config::{button_leds, push_buttons};
use crate::frame::{all_off, grid_columns, grid_rows, push_all_off, selectors};
use crate::grid::{grid_note, note_at, PAGE_SELECT_CC, RIGHT_COLUMN};
use crate::pages::{fader_colors, push_faders, push_xy, xy_colors};
use crate::sysex::{led_message, sysex_set_leds_bulk};
use crate::windows::nudge::{nudge_color, nudge_color_for_cell};
use crate::windows::picker::{
    picker_cell, picker_cell_for_color, picker_color, picker_color_for_cell,
};
use crate::windows::rgbw::{
    RgbwModel, RgbwState, PROFILE_COLOR_ACTIVE, PROFILE_COLOR_FIXTURE, PROFILE_COLOR_MASTER,
    PROFILE_COLOR_UNUSED, RGBW_COLOR_B_OFF, RGBW_COLOR_B_ON, RGBW_COLOR_G_OFF, RGBW_COLOR_G_ON,
    RGBW_COLOR_R_OFF, RGBW_COLOR_R_ON, RGBW_COLOR_W_OFF, RGBW_COLOR_W_ON,
};
use crate::windows::state::{
    custom_color, fader_color, is_rgbw_page, BridgeState, Config, Overlay, PageConfig, Surface,
};

verus! {

broadcast use vstd::std_specs::hash::group_hash_axioms;

/// Selector colours: white for the current page, its own for any other page,
/// off where there is no page.
pub open spec fn selector_colors(pages: Seq<PageConfig>, current: usize) -> spec_fn(int) -> u8 {
    |i: int|
        if i < pages.len() {
            if i == current {
                72u8
            } else {
                pages[i].selector_color
            }
        } else {
            0u8
        }
}

/// Selector colours while a colour is chosen: red for the current page.
pub open spec fn picker_selector_colors(current: usize) -> spec_fn(int) -> u8 {
    |i: int|
        if i == current {
            5u8
        } else {
            0u8
        }
}

/// Pad colours while a colour is chosen: the palette.
pub open spec fn palette_colors() -> spec_fn(u8, u8) -> u8 {
    |col: u8, row: u8| picker_color(col, row)
}

/// The LED that marks a colour in the palette.
pub open spec fn mark(color: u8) -> Seq<(u8, u8)> {
    match picker_cell(color) {
        Some((col, row)) => seq![(note_at(col, row), 72u8)],
        None => Seq::empty(),
    }
}

/// The frame of the colour picker with one colour marked.
pub open spec fn picker_frame(current: usize, marked: u8) -> Seq<(u8, u8)> {
    all_off() + selectors(picker_selector_colors(current)) + grid_rows(palette_colors()) + mark(
        marked,
    ) + seq![(19u8, 13u8)]
}

/// The colour of a channel's steps.
pub open spec fn channel_color(channel: int, lit: bool) -> u8 {
    if channel == 0 {
        if lit {
            RGBW_COLOR_R_ON
        } else {
            RGBW_COLOR_R_OFF
        }
    } else if channel == 1 {
        if lit {
            RGBW_COLOR_G_ON
        } else {
            RGBW_COLOR_G_OFF
        }
    } else if channel == 2 {
        if lit {
            RGBW_COLOR_B_ON
        } else {
            RGBW_COLOR_B_OFF
        }
    } else {
        if lit {
            RGBW_COLOR_W_ON
        } else {
            RGBW_COLOR_W_OFF
        }
    }
}

/// Pad colours of an RGBW page: two columns for each channel, lit up to its level.
pub open spec fn rgbw_colors(model: RgbwModel) -> spec_fn(u8, u8) -> u8 {
    |col: u8, row: u8|
        channel_color((col / 2) as int, model.shown_levels()[(col / 2) as int] >= row + 1)
}

/// The colour of a button of the right column of an RGBW page: from the top, the
/// master and the six fixtures; the bottom one is unused.
pub open spec fn profile_color(index: int, active: int) -> u8 {
    if index == 0 {
        PROFILE_COLOR_UNUSED
    } else if 7 - index == active {
        PROFILE_COLOR_ACTIVE
    } else if index == 7 {
        PROFILE_COLOR_MASTER
    } else {
        PROFILE_COLOR_FIXTURE
    }
}

/// The buttons of the right column of an RGBW page.
pub open spec fn profile_leds(active: int) -> Seq<(u8, u8)> {
    Seq::new(8, |i: int| ((19 + 10 * i) as u8, profile_color(i, active)))
}

/// Pad colours of a flash page. The bottom row is lit in the fader's colour while
/// it is held; the rows above are lit up to the fader's level.
pub open spec fn flash_colors(config: Config, s: Surface) -> spec_fn(u8, u8) -> u8 {
    |col: u8, row: u8|
        if row == 0 {
            if s.flash_pressed[col as int] {
                fader_color(config, s, s.current_page, col)
            } else {
                1u8
            }
        } else if s.fader_levels[col as int] >= row {
            fader_color(config, s, s.current_page, col)
        } else {
            0u8
        }
}

/// Pad colours of a custom page.
pub open spec fn custom_pad_colors(config: Config, s: Surface) -> spec_fn(u8, u8) -> u8 {
    |col: u8, row: u8| custom_color(config, s, s.current_page, note_at(col, row))
}

/// Pad colours of a nudge page.
pub open spec fn nudge_pad_colors() -> spec_fn(u8, u8) -> u8 {
    |col: u8, row: u8| nudge_color(col, row)
}

/// The LEDs of the current page below the top row.
pub open spec fn page_leds(config: Config, s: Surface) -> Seq<(u8, u8)> {
    let page = config.pages@[s.current_page as int];
    if page.rgbw_mode {
        grid_rows(rgbw_colors(s.rgbw[s.current_page])) + profile_leds(
            s.rgbw[s.current_page].active,
        )
    } else if page.flash_fader_mode {
        if page.fader_config is Some {
            grid_columns(flash_colors(config, s))
        } else {
            Seq::empty()
        }
    } else if page.custom_mode {
        grid_rows(custom_pad_colors(config, s))
    } else if page.nudge_xy_mode {
        if page.xy_config is Some {
            grid_rows(nudge_pad_colors())
        } else {
            Seq::empty()
        }
    } else if page.xy_mode {
        match page.xy_config {
            Some(xy) => grid_rows(xy_colors(xy, s.xy_selected)),
            None => Seq::empty(),
        }
    } else if page.fader_mode {
        match page.fader_config {
            Some(fader) => grid_columns(fader_colors(fader, s.fader_levels)),
            None => Seq::empty(),
        }
    } else {
        button_leds(page.buttons@)
    }
}

/// The modifier button: yellow while it is active, dim red otherwise.
pub open spec fn modifier_leds(active: bool) -> Seq<(u8, u8)> {
    seq![
        (
            19u8,
            if active {
                13u8
            } else {
                1u8
            },
        ),
    ]
}

/// The frame of the current page.
pub open spec fn page_frame(config: Config, s: Surface) -> Seq<(u8, u8)> {
    all_off() + selectors(selector_colors(config.pages@, s.current_page)) + page_leds(config, s)
        + modifier_leds(s.modifier)
}

/// The frame that is shown: the colour picker where it is open, else the page.
pub open spec fn frame(config: Config, s: Surface) -> Seq<(u8, u8)> {
    match s.overlay {
        Overlay::ColorPicker { page_idx, note } => picker_frame(
            s.current_page,
            custom_color(config, s, page_idx, note),
        ),
        Overlay::FlashFaderColorPicker { page_idx, col } => picker_frame(
            s.current_page,
            fader_color(config, s, page_idx, col),
        ),
        Overlay::Closed => page_frame(config, s),
    }
}

/// The effect of showing the state.
pub open spec fn redraw(config: Config, s: Surface) -> Effect {
    Effect::Midi { bytes: led_message(frame(config, s)) }
}

/// Appends the selectors of the top row.
fn push_selectors(leds: &mut Vec<(u8, u8)>, state: &BridgeState)
    ensures
        final(leds)@ == old(leds)@ + selectors(
            selector_colors(state.config.pages@, state.current_page),
        ),
{
    let ghost before = leds@;
    let ghost target = selectors(selector_colors(state.config.pages@, state.current_page));
    let mut i: usize = 0;
    while i < 8
        invariant
            i <= 8,
            target == selectors(selector_colors(state.config.pages@, state.current_page)),
            leds@ == before + target.take(i as int),
        decreases 8 - i,
    {
        let color: u8 = if i < state.config.pages.len() {
            if i == state.current_page {
                72
            } else {
                state.config.pages[i].selector_color
            }
        } else {
            0
        };
        leds.push((PAGE_SELECT_CC[i], color));
        assert(target.take(i + 1) =~= target.take(i as int).push(target[i as int]));
        i = i + 1;
        assert(leds@ =~= before + target.take(i as int));
    }
    assert(target.take(8) =~= target);
}

/// The frame of the colour picker.
fn picker_leds(current: usize, marked: u8) -> (leds: Vec<(u8, u8)>)
    ensures
        leds@ == picker_frame(current, marked),
{
    let mut leds: Vec<(u8, u8)> = Vec::new();
    push_all_off(&mut leds);
    assert(leds@ =~= all_off());
    let ghost target = selectors(picker_selector_colors(current));
    let mut i: usize = 0;
    while i < 8
        invariant
            i <= 8,
            target == selectors(picker_selector_colors(current)),
            leds@ == all_off() + target.take(i as int),
        decreases 8 - i,
    {
        let color: u8 = if i == current {
            5
        } else {
            0
        };
        leds.push((PAGE_SELECT_CC[i], color));
        assert(target.take(i + 1) =~= target.take(i as int).push(target[i as int]));
        i = i + 1;
        assert(leds@ =~= all_off() + target.take(i as int));
    }
    assert(target.take(8) =~= target);
    let ghost before = leds@;
    let ghost target = grid_rows(palette_colors());
    let mut i: u8 = 0;
    while i < 64
        invariant
            i <= 64,
            target == grid_rows(palette_colors()),
            leds@ == before + target.take(i as int),
        decreases 64 - i,
    {
        let col: u8 = i % 8;
        let row: u8 = i / 8;
        leds.push((grid_note(col, row), picker_color_for_cell(col, row)));
        assert(target.take(i + 1) =~= target.take(i as int).push(target[i as int]));
        i = i + 1;
        assert(leds@ =~= before + target.take(i as int));
    }
    assert(target.take(64) =~= target);
    let ghost before = leds@;
    if let Some((col, row)) = picker_cell_for_color(marked) {
        leds.push((grid_note(col, row), 72));
    }
    assert(leds@ =~= before + mark(marked));
    leds.push((19, 13));
    leds
}

/// Appends the pads and profile buttons of an RGBW page.
pub fn render_rgbw(leds: &mut Vec<(u8, u8)>, state: &RgbwState)
    requires
        state.active_profile < 7,
    ensures
        final(leds)@ == old(leds)@ + grid_rows(rgbw_colors(state@)) + profile_leds(state@.active),
{
    let ghost before = leds@;
    let ghost target = grid_rows(rgbw_colors(state@));
    let profile = state.profiles[state.active_profile];
    assert(state@.shown_levels() =~= profile.levels@);
    let mut i: u8 = 0;
    while i < 64
        invariant
            i <= 64,
            state@.shown_levels() == profile.levels@,
            target == grid_rows(rgbw_colors(state@)),
            leds@ == before + target.take(i as int),
        decreases 64 - i,
    {
        let col: u8 = i % 8;
        let row: u8 = i / 8;
        let channel: usize = (col / 2) as usize;
        let lit: bool = profile.levels[channel] >= row + 1;
        let color: u8 = match (channel, lit) {
            (0, true) => RGBW_COLOR_R_ON,
            (0, false) => RGBW_COLOR_R_OFF,
            (1, true) => RGBW_COLOR_G_ON,
            (1, false) => RGBW_COLOR_G_OFF,
            (2, true) => RGBW_COLOR_B_ON,
            (2, false) => RGBW_COLOR_B_OFF,
            (3, true) => RGBW_COLOR_W_ON,
            _ => RGBW_COLOR_W_OFF,
        };
        leds.push((grid_note(col, row), color));
        assert(target.take(i + 1) =~= target.take(i as int).push(target[i as int]));
        i = i + 1;
        assert(leds@ =~= before + target.take(i as int));
    }
    assert(target.take(64) =~= target);
    let ghost before = leds@;
    let ghost target = profile_leds(state@.active);
    let mut i: usize = 0;
    while i < 8
        invariant
            i <= 8,
            target == profile_leds(state@.active),
            leds@ == before + target.take(i as int),
        decreases 8 - i,
    {
        let color: u8 = if i == 0 {
            PROFILE_COLOR_UNUSED
        } else {
            let profile: usize = 7 - i;
            if profile == state.active_profile {
                PROFILE_COLOR_ACTIVE
            } else if profile == 0 {
                PROFILE_COLOR_MASTER
            } else {
                PROFILE_COLOR_FIXTURE
            }
        };
        leds.push((RIGHT_COLUMN[i], color));
        assert(target.take(i + 1) =~= target.take(i as int).push(target[i as int]));
        i = i + 1;
        assert(leds@ =~= before + target.take(i as int));
    }
    assert(target.take(8) =~= target);
}

/// Appends the pads of a flash page.
fn push_flash(leds: &mut Vec<(u8, u8)>, state: &BridgeState)
    requires
        state.wf(),
    ensures
        final(leds)@ == old(leds)@ + grid_columns(flash_colors(state.config, state@)),
{
    let ghost before = leds@;
    let ghost target = grid_columns(flash_colors(state.config, state@));
    let mut i: u8 = 0;
    while i < 64
        invariant
            i <= 64,
            state.wf(),
            target == grid_columns(flash_colors(state.config, state@)),
            leds@ == before + target.take(i as int),
        decreases 64 - i,
    {
        let col: u8 = i / 8;
        let row: u8 = i % 8;
        let color_on: u8 = state.get_fader_color(state.current_page, col);
        let color: u8 = if row == 0 {
            if state.flash_buttons_pressed[col as usize] {
                color_on
            } else {
                1
            }
        } else if state.fader_levels[col as usize] >= row {
            color_on
        } else {
            0
        };
        leds.push((grid_note(col, row), color));
        assert(target.take(i + 1) =~= target.take(i as int).push(target[i as int]));
        i = i + 1;
        assert(leds@ =~= before + target.take(i as int));
    }
    assert(target.take(64) =~= target);
}

/// Appends the pads of a custom page.
fn push_custom(leds: &mut Vec<(u8, u8)>, state: &BridgeState)
    requires
        state.wf(),
    ensures
        final(leds)@ == old(leds)@ + grid_rows(custom_pad_colors(state.config, state@)),
{
    let ghost before = leds@;
    let ghost target = grid_rows(custom_pad_colors(state.config, state@));
    let mut i: u8 = 0;
    while i < 64
        invariant
            i <= 64,
            state.wf(),
            target == grid_rows(custom_pad_colors(state.config, state@)),
            leds@ == before + target.take(i as int),
        decreases 64 - i,
    {
        let note: u8 = grid_note(i % 8, i / 8);
        leds.push((note, state.custom_button_color(state.current_page, note)));
        assert(target.take(i + 1) =~= target.take(i as int).push(target[i as int]));
        i = i + 1;
        assert(leds@ =~= before + target.take(i as int));
    }
    assert(target.take(64) =~= target);
}

/// Appends the pads of a nudge page.
fn push_nudge(leds: &mut Vec<(u8, u8)>)
    ensures
        final(leds)@ == old(leds)@ + grid_rows(nudge_pad_colors()),
{
    let ghost before = leds@;
    let ghost target = grid_rows(nudge_pad_colors());
    let mut i: u8 = 0;
    while i < 64
        invariant
            i <= 64,
            target == grid_rows(nudge_pad_colors()),
            leds@ == before + target.take(i as int),
        decreases 64 - i,
    {
        let col: u8 = i % 8;
        let row: u8 = i / 8;
        leds.push((grid_note(col, row), nudge_color_for_cell(col, row)));
        assert(target.take(i + 1) =~= target.take(i as int).push(target[i as int]));
        i = i + 1;
        assert(leds@ =~= before + target.take(i as int));
    }
    assert(target.take(64) =~= target);
}

/// Appends the LEDs of the current page below the top row.
fn push_page(leds: &mut Vec<(u8, u8)>, state: &BridgeState)
    requires
        state.wf(),
    ensures
        final(leds)@ == old(leds)@ + page_leds(state.config, state@),
{
    let page = &state.config.pages[state.current_page];
    if page.rgbw_mode {
        assert(is_rgbw_page(state.config.pages@, state.current_page));
        if let Some(rgbw) = state.rgbw_states.get(&state.current_page) {
            render_rgbw(leds, rgbw);
        }
    } else if page.flash_fader_mode {
        if page.fader_config.is_some() {
            push_flash(leds, state);
        }
    } else if page.custom_mode {
        push_custom(leds, state);
    } else if page.nudge_xy_mode {
        if page.xy_config.is_some() {
            push_nudge(leds);
        }
    } else if page.xy_mode {
        if let Some(xy) = &page.xy_config {
            push_xy(leds, xy, state.xy_selected);
        }
    } else if page.fader_mode {
        if let Some(fader) = &page.fader_config {
            push_faders(leds, fader, &state.fader_levels);
        }
    } else {
        push_buttons(leds, &page.buttons);
    }
    assert(leds@ =~= old(leds)@ + page_leds(state.config, state@));
}

/// The message that shows the state.
pub fn render_page(state: &BridgeState) -> (message: Vec<u8>)
    requires
        state.wf(),
    ensures
        message@ == led_message(frame(state.config, state@)),
{
    match state.overlay {
        Overlay::ColorPicker { page_idx, note } => {
            let marked = state.custom_button_color(page_idx, note);
            let leds = picker_leds(state.current_page, marked);
            sysex_set_leds_bulk(leds.as_slice())
        },
        Overlay::FlashFaderColorPicker { page_idx, col } => {
            let marked = state.get_fader_color(page_idx, col);
            let leds = picker_leds(state.current_page, marked);
            sysex_set_leds_bulk(leds.as_slice())
        },
        Overlay::Closed => {
            let mut leds: Vec<(u8, u8)> = Vec::new();
            push_all_off(&mut leds);
            assert(leds@ =~= all_off());
            push_selectors(&mut leds, state);
            push_page(&mut leds, state);
            let color: u8 = if state.color_picker_modifier_active {
                13
            } else {
                1
            };
            leds.push((19, color));
            assert(leds@ =~= page_frame(state.config, state@));
            sysex_set_leds_bulk(leds.as_slice())
        },
    }
}

} // verus!
