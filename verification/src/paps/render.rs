//! LED frames.

use vstd::prelude::*;

use crate::actions::Effect;
use crate::frame::{grid_columns, grid_rows, selectors};
use crate::grid::{grid_note, note_at, PAGE_SELECT_CC, RIGHT_COLUMN};
use crate::pages::{push_xy, xy_colors};
use crate::paps::leds::{led_message, sysex_set_leds_bulk};
use crate::paps::picker::{picker_color, picker_color_for_cell};
use crate::paps::state::{
    custom_color, BridgeState, ButtonConfig, Config, FaderConfig, Overlay, PageConfig, Surface,
    XyAdjustMode,
};

verus! {

broadcast use vstd::std_specs::hash::group_hash_axioms;

/// Selector colours: white for the current page, its own for any other page,
/// off where there is no page.
pub open spec fn selector_colors(pages: Seq<PageConfig>, current: usize) -> spec_fn(int) -> u8 {
    |i: int|
        if i < pages.len() {
            if i == current {
                72u8
            } else {
                pages[i].selector_color
            }
        } else {
            0u8
        }
}

/// The right column. On XY pages the top button tells the mode (green for coarse,
/// yellow for fine), and the two below it change the fine step. On beat pages there
/// are tap, next palette and previous palette.
pub open spec fn right_leds(page: PageConfig, mode: XyAdjustMode) -> Seq<(u8, u8)> {
    if page.xy_mode {
        let (top, steps) = match mode {
            XyAdjustMode::Coarse => (21u8, 0u8),
            XyAdjustMode::Fine => (13u8, 45u8),
        };
        seq![
            (89u8, top),
            (79, steps),
            (69, steps),
            (59, 0),
            (49, 0),
            (39, 0),
            (29, 0),
            (19, 0),
        ]
    } else if page.beat_mode {
        seq![
            (59u8, 5u8),
            (49, 57),
            (39, 53),
            (89, 0),
            (79, 0),
            (69, 0),
            (29, 0),
            (19, 0),
        ]
    } else {
        Seq::new(8, |i: int| ((19 + 10 * i) as u8, 0u8))
    }
}

/// Pad colours while a colour is chosen: the palette.
pub open spec fn palette_colors() -> spec_fn(u8, u8) -> u8 {
    |col: u8, row: u8| picker_color(col, row)
}

/// Pad colours of a custom page.
pub open spec fn custom_pad_colors(config: Config, s: Surface) -> spec_fn(u8, u8) -> u8 {
    |col: u8, row: u8| custom_color(config, s, s.current_page, note_at(col, row))
}

/// Pad colours of a beat page: the bottom row is lit.
pub open spec fn beat_colors() -> spec_fn(u8, u8) -> u8 {
    |col: u8, row: u8|
        if row == 0 {
            96u8
        } else {
            0u8
        }
}

/// Pad colours of a fader page: lit up to the level of the column, halogens on the
/// left and RGB lights on the right in their own colours.
pub open spec fn fader_colors(fader: FaderConfig, levels: Seq<u8>) -> spec_fn(u8, u8) -> u8 {
    |col: u8, row: u8|
        if levels[col as int] >= row + 1 {
            if col < 4 {
                fader.color_halogen_on
            } else {
                fader.color_rgb_on
            }
        } else {
            if col < 4 {
                fader.color_halogen_off
            } else {
                fader.color_rgb_off
            }
        }
}

/// Whether an RGB pad is on.
pub open spec fn is_on(states: Map<u8, bool>, note: u8) -> bool {
    states.contains_key(note) && states[note]
}

/// The buttons of an RGB page in their on and off colours.
pub open spec fn rgb_leds(buttons: Seq<ButtonConfig>, states: Map<u8, bool>) -> Seq<(u8, u8)> {
    buttons.map_values(
        |button: ButtonConfig|
            (
                button.note,
                if is_on(states, button.note) {
                    button.color_on
                } else {
                    button.color_off
                },
            ),
    )
}

/// Buttons in their on colour.
pub open spec fn button_leds(buttons: Seq<ButtonConfig>) -> Seq<(u8, u8)> {
    buttons.map_values(|button: ButtonConfig| (button.note, button.color_on))
}

/// The LEDs of the grid.
pub open spec fn grid_leds(config: Config, s: Surface) -> Seq<(u8, u8)> {
    let page = config.pages@[s.current_page as int];
    if page.custom_mode {
        grid_rows(custom_pad_colors(config, s))
    } else if page.rgb_mode {
        rgb_leds(page.buttons@, s.rgb_states)
    } else if page.flash_mode || page.move_mode {
        button_leds(page.buttons@)
    } else if page.beat_mode {
        grid_columns(beat_colors())
    } else if page.xy_mode {
        match page.xy_config {
            Some(xy) => grid_rows(xy_colors(xy, s.xy_selected)),
            None => Seq::empty(),
        }
    } else if page.fader_mode {
        match page.fader_config {
            Some(fader) => grid_columns(fader_colors(fader, s.fader_levels)),
            None => Seq::empty(),
        }
    } else {
        button_leds(page.buttons@)
    }
}

/// The frame that is shown: the palette while a colour is chosen, else the page.
pub open spec fn frame(config: Config, s: Surface) -> Seq<(u8, u8)> {
    match s.overlay {
        Overlay::ColorPicker { .. } => grid_rows(palette_colors()),
        Overlay::Closed => selectors(selector_colors(config.pages@, s.current_page)) + right_leds(
            config.pages@[s.current_page as int],
            s.adjust_mode,
        ) + grid_leds(config, s),
    }
}

/// The effect of showing the state.
pub open spec fn redraw(config: Config, s: Surface) -> Effect {
    Effect::Midi { bytes: led_message(frame(config, s)) }
}

/// Appends the selectors of the top row.
fn push_selectors(leds: &mut Vec<(u8, u8)>, state: &BridgeState)
    ensures
        final(leds)@ == old(leds)@ + selectors(
            selector_colors(state.config.pages@, state.current_page),
        ),
{
    let ghost before = leds@;
    let ghost target = selectors(selector_colors(state.config.pages@, state.current_page));
    let mut i: usize = 0;
    while i < 8
        invariant
            i <= 8,
            target == selectors(selector_colors(state.config.pages@, state.current_page)),
            leds@ == before + target.take(i as int),
        decreases 8 - i,
    {
        let color: u8 = if i < state.config.pages.len() {
            if i == state.current_page {
                72
            } else {
                state.config.pages[i].selector_color
            }
        } else {
            0
        };
        leds.push((PAGE_SELECT_CC[i], color));
        assert(target.take(i + 1) =~= target.take(i as int).push(target[i as int]));
        i = i + 1;
        assert(leds@ =~= before + target.take(i as int));
    }
    assert(target.take(8) =~= target);
}

/// Appends the right column.
fn push_right(leds: &mut Vec<(u8, u8)>, page: &PageConfig, mode: XyAdjustMode)
    ensures
        final(leds)@ == old(leds)@ + right_leds(*page, mode),
{
    let ghost before = leds@;
    if page.xy_mode {
        let (top, steps): (u8, u8) = match mode {
            XyAdjustMode::Coarse => (21, 0),
            XyAdjustMode::Fine => (13, 45),
        };
        leds.push((89, top));
        leds.push((79, steps));
        leds.push((69, steps));
        leds.push((59, 0));
        leds.push((49, 0));
        leds.push((39, 0));
        leds.push((29, 0));
        leds.push((19, 0));
        assert(leds@ =~= before + right_leds(*page, mode));
    } else if page.beat_mode {
        leds.push((59, 5));
        leds.push((49, 57));
        leds.push((39, 53));
        leds.push((89, 0));
        leds.push((79, 0));
        leds.push((69, 0));
        leds.push((29, 0));
        leds.push((19, 0));
        assert(leds@ =~= before + right_leds(*page, mode));
    } else {
        let ghost target = right_leds(*page, mode);
        let mut i: usize = 0;
        while i < 8
            invariant
                i <= 8,
                target == Seq::new(8, |i: int| ((19 + 10 * i) as u8, 0u8)),
                leds@ == before + target.take(i as int),
            decreases 8 - i,
        {
            leds.push((RIGHT_COLUMN[i], 0));
            i = i + 1;
            assert(leds@ =~= before + target.take(i as int));
        }
        assert(target.take(8) =~= target);
    }
}

/// Appends the pads of a custom page.
fn push_custom(leds: &mut Vec<(u8, u8)>, state: &BridgeState)
    requires
        state.wf(),
    ensures
        final(leds)@ == old(leds)@ + grid_rows(custom_pad_colors(state.config, state@)),
{
    let ghost before = leds@;
    let ghost target = grid_rows(custom_pad_colors(state.config, state@));
    let mut i: u8 = 0;
    while i < 64
        invariant
            i <= 64,
            state.wf(),
            target == grid_rows(custom_pad_colors(state.config, state@)),
            leds@ == before + target.take(i as int),
        decreases 64 - i,
    {
        let note: u8 = grid_note(i % 8, i / 8);
        leds.push((note, state.custom_button_color(state.current_page, note)));
        assert(target.take(i + 1) =~= target.take(i as int).push(target[i as int]));
        i = i + 1;
        assert(leds@ =~= before + target.take(i as int));
    }
    assert(target.take(64) =~= target);
}

/// Appends the buttons of an RGB page.
fn push_rgb(leds: &mut Vec<(u8, u8)>, buttons: &Vec<ButtonConfig>, state: &BridgeState)
    ensures
        final(leds)@ == old(leds)@ + rgb_leds(buttons@, state@.rgb_states),
{
    let ghost before = leds@;
    let ghost target = rgb_leds(buttons@, state@.rgb_states);
    let mut i: usize = 0;
    while i < buttons.len()
        invariant
            i <= buttons@.len(),
            target == rgb_leds(buttons@, state@.rgb_states),
            leds@ == before + target.take(i as int),
        decreases buttons@.len() - i,
    {
        let button = &buttons[i];
        let on: bool = match state.rgb_states.get(&button.note) {
            Some(value) => *value,
            None => false,
        };
        let color: u8 = if on {
            button.color_on
        } else {
            button.color_off
        };
        leds.push((button.note, color));
        i = i + 1;
        assert(leds@ =~= before + target.take(i as int));
    }
    assert(target.take(i as int) =~= target);
}

/// Appends buttons in their on colour.
fn push_buttons(leds: &mut Vec<(u8, u8)>, buttons: &Vec<ButtonConfig>)
    ensures
        final(leds)@ == old(leds)@ + button_leds(buttons@),
{
    let ghost before = leds@;
    let mut i: usize = 0;
    while i < buttons.len()
        invariant
            i <= buttons@.len(),
            leds@ == before + button_leds(buttons@).take(i as int),
        decreases buttons@.len() - i,
    {
        leds.push((buttons[i].note, buttons[i].color_on));
        i = i + 1;
        assert(leds@ =~= before + button_leds(buttons@).take(i as int));
    }
    assert(button_leds(buttons@).take(i as int) =~= button_leds(buttons@));
}

/// Appends the pads of a beat page.
fn push_beat(leds: &mut Vec<(u8, u8)>)
    ensures
        final(leds)@ == old(leds)@ + grid_columns(beat_colors()),
{
    let ghost before = leds@;
    let ghost target = grid_columns(beat_colors());
    let mut i: u8 = 0;
    while i < 64
        invariant
            i <= 64,
            target == grid_columns(beat_colors()),
            leds@ == before + target.take(i as int),
        decreases 64 - i,
    {
        let row: u8 = i % 8;
        let color: u8 = if row == 0 {
            96
        } else {
            0
        };
        leds.push((grid_note(i / 8, row), color));
        i = i + 1;
        assert(leds@ =~= before + target.take(i as int));
    }
    assert(target.take(64) =~= target);
}

/// Appends the pads of a fader page.
fn push_faders(leds: &mut Vec<(u8, u8)>, fader: &FaderConfig, levels: &Vec<u8>)
    requires
        levels@.len() == 8,
    ensures
        final(leds)@ == old(leds)@ + grid_columns(fader_colors(*fader, levels@)),
{
    let ghost before = leds@;
    let ghost target = grid_columns(fader_colors(*fader, levels@));
    let mut i: u8 = 0;
    while i < 64
        invariant
            i <= 64,
            levels@.len() == 8,
            target == grid_columns(fader_colors(*fader, levels@)),
            leds@ == before + target.take(i as int),
        decreases 64 - i,
    {
        let col: u8 = i / 8;
        let row: u8 = i % 8;
        let (on, off): (u8, u8) = if col < 4 {
            (fader.color_halogen_on, fader.color_halogen_off)
        } else {
            (fader.color_rgb_on, fader.color_rgb_off)
        };
        let color: u8 = if levels[col as usize] >= row + 1 {
            on
        } else {
            off
        };
        leds.push((grid_note(col, row), color));
        i = i + 1;
        assert(leds@ =~= before + target.take(i as int));
    }
    assert(target.take(64) =~= target);
}

/// Appends the LEDs of the grid.
fn push_grid(leds: &mut Vec<(u8, u8)>, state: &BridgeState)
    requires
        state.wf(),
    ensures
        final(leds)@ == old(leds)@ + grid_leds(state.config, state@),
{
    let page = &state.config.pages[state.current_page];
    if page.custom_mode {
        push_custom(leds, state);
    } else if page.rgb_mode {
        push_rgb(leds, &page.buttons, state);
    } else if page.flash_mode || page.move_mode {
        push_buttons(leds, &page.buttons);
    } else if page.beat_mode {
        push_beat(leds);
    } else if page.xy_mode {
        if let Some(xy) = &page.xy_config {
            push_xy(leds, xy, state.xy_selected);
        }
    } else if page.fader_mode {
        if let Some(fader) = &page.fader_config {
            push_faders(leds, fader, &state.fader_levels);
        }
    } else {
        push_buttons(leds, &page.buttons);
    }
    assert(leds@ =~= old(leds)@ + grid_leds(state.config, state@));
}

/// The message that shows the palette.
pub fn render_color_picker() -> (message: Vec<u8>)
    ensures
        message@ == led_message(grid_rows(palette_colors())),
{
    let mut leds: Vec<(u8, u8)> = Vec::new();
    let ghost target = grid_rows(palette_colors());
    let mut i: u8 = 0;
    while i < 64
        invariant
            i <= 64,
            target == grid_rows(palette_colors()),
            leds@ == target.take(i as int),
        decreases 64 - i,
    {
        let col: u8 = i % 8;
        let row: u8 = i / 8;
        leds.push((grid_note(col, row), picker_color_for_cell(col, row)));
        i = i + 1;
        assert(leds@ =~= target.take(i as int));
    }
    assert(target.take(64) =~= target);
    sysex_set_leds_bulk(leds.as_slice())
}

/// The message that shows the state.
pub fn render_page(state: &BridgeState) -> (message: Vec<u8>)
    requires
        state.wf(),
    ensures
        message@ == led_message(frame(state.config, state@)),
{
    match state.overlay {
        Overlay::ColorPicker { .. } => render_color_picker(),
        Overlay::Closed => {
            let mut leds: Vec<(u8, u8)> = Vec::new();
            push_selectors(&mut leds, state);
            push_right(
                &mut leds,
                &state.config.pages[state.current_page],
                state.xy_adjust_mode,
            );
            push_grid(&mut leds, state);
            assert(leds@ =~= frame(state.config, state@));
            sysex_set_leds_bulk(leds.as_slice())
        },
    }
}

} // verus!
