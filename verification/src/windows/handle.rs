//! What MIDI messages do.

use vstd::prelude::*;

use crate::actions::{
    effects, no_actions, one, osc, push_action, push_midi, push_osc, zero, Action, Effect, OscValue,
};
use crate::config::{button_index, find_button};
use crate::grid::{
    cell_of, note_to_grid, page_for_cc, right_column_index, right_index, selector_index,
};
use crate::midi::{event_of, parse_midi, MidiEvent};
use crate::pages::{faders_off, held_for, new_levels, release_time, toggled, LONG_PRESS_NANOS};
use crate::position::{cell_position, nearest_single, nudge, nudged, CENTRE, ONE};
use crate::windows::nudge::{nudge_from_position, nudge_of};
use crate::windows::picker::{picker_color, picker_color_for_cell};
use crate::windows::render::{redraw, render_page};
use crate::windows::rgbw::{channel_addresses, osc_to_all, profile_addresses, RgbwConfig, RgbwState};
use crate::windows::state::{
    can_show, custom_address, is_rgbw_page, pages_wf, positions_wf, rgbw_at, rgbw_view, surface_wf,
    BridgeState, Config, Overlay, PageConfig, Surface,
};

verus! {

broadcast use vstd::std_specs::hash::group_hash_axioms;

/// Nothing happens.
pub open spec fn idle(s: Surface) -> (Surface, Seq<Effect>) {
    (s, Seq::empty())
}

/// A pad of a normal page: the first button with that note sends its message.
pub open spec fn button_press(page: PageConfig, note: u8) -> Seq<Effect> {
    match find_button(page.buttons@, note) {
        Some(button) => seq![osc(button.osc_address@, button.osc_value)],
        None => Seq::empty(),
    }
}

/// A short press on a custom page: the pad sends the value of its button, 1 where it
/// has none.
pub open spec fn custom_press(config: Config, s: Surface, note: u8) -> Seq<Effect> {
    seq![
        osc(
            custom_address(config, s.current_page, note),
            match find_button(config.pages@[s.current_page as int].buttons@, note) {
                Some(button) => button.osc_value,
                None => one(),
            },
        ),
    ]
}

/// A pad of an XY page: the cell is selected, pan goes from left to right and tilt
/// from top to bottom, both in sevenths. Nudges of this page go on from there.
pub open spec fn xy_press(config: Config, s: Surface, note: u8) -> (Surface, Seq<Effect>) {
    match cell_of(note) {
        Some((col, row)) => match config.pages@[s.current_page as int].xy_config {
            Some(xy) => {
                let after = Surface {
                    xy_selected: Some((col, row)),
                    nudge_pan: s.nudge_pan.insert(
                        s.current_page,
                        nearest_single(col * ONE, 7) as u32,
                    ),
                    nudge_tilt: s.nudge_tilt.insert(
                        s.current_page,
                        nearest_single((7 - row) * ONE, 7) as u32,
                    ),
                    ..s
                };
                (
                    after,
                    seq![
                        osc(xy.pan_address@, OscValue::Ratio { num: col, den: 7 }),
                        osc(xy.tilt_address@, OscValue::Ratio { num: (7 - row) as u8, den: 7 }),
                        redraw(config, after),
                    ],
                )
            },
            None => {
                let after = Surface { xy_selected: Some((col, row)), ..s };
                (after, seq![redraw(config, after)])
            },
        },
        None => idle(s),
    }
}

/// The position that a nudge of a page starts from: the centre where none was set.
pub open spec fn nudge_start(positions: Map<usize, u32>, page: usize) -> int {
    if positions.contains_key(page) {
        positions[page] as int
    } else {
        CENTRE as int
    }
}

/// A pad of a nudge page: a pad on an arm moves pan or tilt and sends both, any
/// other pad does nothing.
pub open spec fn nudge_press(config: Config, s: Surface, note: u8) -> (Surface, Seq<Effect>) {
    match cell_of(note) {
        Some((col, row)) => match nudge_of(col, row) {
            Some((pan_delta, tilt_delta)) => match config.pages@[s.current_page as int].xy_config {
                Some(xy) => {
                    let pan = nudged(nudge_start(s.nudge_pan, s.current_page), pan_delta) as u32;
                    let tilt = nudged(
                        nudge_start(s.nudge_tilt, s.current_page),
                        tilt_delta,
                    ) as u32;
                    (
                        Surface {
                            nudge_pan: s.nudge_pan.insert(s.current_page, pan),
                            nudge_tilt: s.nudge_tilt.insert(s.current_page, tilt),
                            ..s
                        },
                        seq![
                            osc(xy.pan_address@, OscValue::Position { units: pan }),
                            osc(xy.tilt_address@, OscValue::Position { units: tilt }),
                        ],
                    )
                },
                None => idle(s),
            },
            None => idle(s),
        },
        None => idle(s),
    }
}

/// The message for a column's address, where the column has one.
pub open spec fn column_message(
    addresses: Seq<String>,
    col: u8,
    value: OscValue,
) -> Seq<Effect> {
    if col < addresses.len() {
        seq![osc(addresses[col as int]@, value)]
    } else {
        Seq::empty()
    }
}

/// The value of a fader of `steps` steps: 0 for off and for the first step, 1
/// for the last one.
pub open spec fn fader_value(level: u8, steps: u8) -> OscValue {
    if level == 0 {
        zero()
    } else {
        OscValue::Ratio { num: (level - 1) as u8, den: (steps - 1) as u8 }
    }
}

/// A pad of a fader page: the column's level changes and is sent.
pub open spec fn fader_press(config: Config, s: Surface, note: u8) -> (Surface, Seq<Effect>) {
    match cell_of(note) {
        Some((col, row)) => {
            let level = toggled(s.fader_levels[col as int], (row + 1) as u8);
            let after = Surface { fader_levels: s.fader_levels.update(col as int, level), ..s };
            let sent = match config.pages@[s.current_page as int].fader_config {
                Some(fader) => column_message(fader.addresses@, col, fader_value(level, 8)),
                None => Seq::empty(),
            };
            (after, sent.push(redraw(config, after)))
        },
        None => idle(s),
    }
}

/// A pad of a flash page. The bottom row sends the column's level while it is
/// held and 0 when it is released; a press on the rows above sets the level and
/// sends nothing.
pub open spec fn flash_event(config: Config, s: Surface, note: u8, pressed: bool) -> (
    Surface,
    Seq<Effect>,
) {
    match (cell_of(note), config.pages@[s.current_page as int].fader_config) {
        (Some((col, row)), Some(fader)) => {
            let current = s.fader_levels[col as int];
            if row == 0 {
                let after = Surface {
                    flash_pressed: s.flash_pressed.update(col as int, pressed),
                    ..s
                };
                let value = if pressed {
                    fader_value(current, 7)
                } else {
                    zero()
                };
                (
                    after,
                    column_message(fader.addresses@, col, value).push(redraw(config, after)),
                )
            } else if pressed {
                let after = Surface {
                    fader_levels: s.fader_levels.update(col as int, toggled(current, row)),
                    ..s
                };
                (after, seq![redraw(config, after)])
            } else {
                idle(s)
            }
        },
        _ => idle(s),
    }
}

/// A pad of an RGBW page: the level of a channel of the shown profile changes, is
/// sent to the fixtures of the profile, and is saved.
pub open spec fn rgbw_press(config: Config, s: Surface, note: u8) -> (Surface, Seq<Effect>) {
    match cell_of(note) {
        Some((col, row)) => {
            let channel = (col / 2) as int;
            let model = rgbw_at(s.rgbw, s.current_page);
            let level = toggled(model.shown_levels()[channel], (row + 1) as u8);
            let after = Surface {
                rgbw: s.rgbw.insert(s.current_page, model.with_level(channel, level)),
                ..s
            };
            let sent = match config.pages@[s.current_page as int].rgbw_config {
                Some(rgbw) => osc_to_all(
                    profile_addresses(rgbw, model.active, channel),
                    OscValue::Ratio { num: level, den: 8 },
                ),
                None => Seq::empty(),
            };
            (after, sent + seq![Effect::SaveRgbw, redraw(config, after)])
        },
        None => idle(s),
    }
}

/// A button of the right column of an RGBW page, counted from the bottom: another
/// profile is shown and the profiles are saved. Nothing is sent. The bottom button
/// and that of the shown profile do nothing.
pub open spec fn profile_press(config: Config, s: Surface, index: usize) -> (
    Surface,
    Seq<Effect>,
) {
    if index == 0 {
        idle(s)
    } else {
        let profile = 7 - index;
        let model = rgbw_at(s.rgbw, s.current_page);
        if profile == model.active {
            idle(Surface { rgbw: s.rgbw.insert(s.current_page, model), ..s })
        } else {
            let after = Surface {
                rgbw: s.rgbw.insert(s.current_page, model.with_profile(profile)),
                ..s
            };
            (after, seq![Effect::SaveRgbw, redraw(config, after)])
        }
    }
}

/// Switching to a page: faders off, no cell selected, no pad held, and profiles
/// for an RGBW page.
pub open spec fn page_switched(config: Config, s: Surface, index: usize) -> Surface {
    Surface {
        current_page: index,
        fader_levels: faders_off(),
        xy_selected: None,
        press_times: Map::empty(),
        rgbw: if config.pages@[index as int].rgbw_mode {
            s.rgbw.insert(index, rgbw_at(s.rgbw, index))
        } else {
            s.rgbw
        },
        ..s
    }
}

/// A button of the top row or the right column.
pub open spec fn control(config: Config, s: Surface, number: u8, value: u8) -> (
    Surface,
    Seq<Effect>,
) {
    if number == 19 {
        if value == 0 {
            idle(Surface { modifier: false, ..s })
        } else {
            let after = Surface { modifier: !s.modifier, ..s };
            (after, seq![redraw(config, after)])
        }
    } else if value == 0 {
        idle(s)
    } else {
        match selector_index(number) {
            Some(index) => if !(s.overlay is Closed) {
                let after = Surface { overlay: Overlay::Closed, ..s };
                (after, seq![redraw(config, after)])
            } else if index < config.pages@.len() {
                let after = page_switched(config, s, index);
                (after, seq![redraw(config, after)])
            } else {
                idle(s)
            },
            None => match right_index(number) {
                Some(index) => if config.pages@[s.current_page as int].rgbw_mode {
                    profile_press(config, s, index)
                } else {
                    idle(s)
                },
                None => idle(s),
            },
        }
    }
}

/// A press while the colour picker is open: a pad of the grid chooses its colour,
/// and the picker closes in any case.
pub open spec fn picker_press(config: Config, s: Surface, note: u8) -> (Surface, Seq<Effect>) {
    let closed = Surface { overlay: Overlay::Closed, ..s };
    match (cell_of(note), s.overlay) {
        (Some((col, row)), Overlay::ColorPicker { page_idx, note: target }) => {
            let after = Surface {
                custom_colors: s.custom_colors.insert((page_idx, target), picker_color(col, row)),
                ..closed
            };
            (after, seq![Effect::SaveColors, redraw(config, after)])
        },
        (Some((col, row)), Overlay::FlashFaderColorPicker { page_idx, col: target }) => {
            let after = Surface {
                fader_colors: s.fader_colors.insert((page_idx, target), picker_color(col, row)),
                ..closed
            };
            (after, seq![Effect::SaveFaderColors, redraw(config, after)])
        },
        _ => (closed, seq![redraw(config, closed)]),
    }
}

/// A press while the modifier is active: on a custom page, and above the bottom
/// row of a flash page, the colour picker opens.
pub open spec fn modifier_press(config: Config, s: Surface, note: u8) -> (Surface, Seq<Effect>) {
    let page = config.pages@[s.current_page as int];
    let overlay = if page.custom_mode {
        Overlay::ColorPicker { page_idx: s.current_page, note }
    } else if page.flash_fader_mode {
        match cell_of(note) {
            Some((col, row)) => if row > 0 {
                Overlay::FlashFaderColorPicker { page_idx: s.current_page, col }
            } else {
                Overlay::Closed
            },
            None => Overlay::Closed,
        }
    } else {
        Overlay::Closed
    };
    if overlay is Closed {
        idle(s)
    } else {
        picker_opened(config, s, overlay)
    }
}

/// A press on the page itself.
pub open spec fn page_press(config: Config, s: Surface, note: u8) -> (Surface, Seq<Effect>) {
    let page = config.pages@[s.current_page as int];
    if page.rgbw_mode {
        rgbw_press(config, s, note)
    } else if page.nudge_xy_mode {
        nudge_press(config, s, note)
    } else if page.xy_mode {
        xy_press(config, s, note)
    } else if page.fader_mode {
        fader_press(config, s, note)
    } else if page.flash_fader_mode {
        flash_event(config, s, note, true)
    } else if page.custom_mode {
        idle(s)
    } else {
        (s, button_press(page, note))
    }
}

/// A pad was pressed.
pub open spec fn note_on(config: Config, s: Surface, note: u8, now: u64) -> (
    Surface,
    Seq<Effect>,
) {
    let held = Surface { press_times: s.press_times.insert(note, now), ..s };
    if !(s.overlay is Closed) {
        picker_press(config, held, note)
    } else if s.modifier {
        modifier_press(config, held, note)
    } else {
        page_press(config, held, note)
    }
}

/// The colour picker opens.
pub open spec fn picker_opened(config: Config, s: Surface, overlay: Overlay) -> (
    Surface,
    Seq<Effect>,
) {
    let after = Surface { overlay, ..s };
    (after, seq![redraw(config, after)])
}

/// A pad was released after a time: a flash button sends 0, a custom pad its message.
/// A long press opens the colour picker of a custom pad, and above the bottom row of a
/// flash page that of the fader. While the picker is open nothing happens.
pub open spec fn note_off(config: Config, s: Surface, note: u8, elapsed: int) -> (
    Surface,
    Seq<Effect>,
) {
    let page = config.pages@[s.current_page as int];
    let long = elapsed >= LONG_PRESS_NANOS;
    if !(s.overlay is Closed) {
        idle(s)
    } else if page.flash_fader_mode && (cell_of(note) matches Some((col, row)) && row == 0) {
        flash_event(config, s, note, false)
    } else if page.flash_fader_mode && cell_of(note) is Some && long {
        let (col, _) = cell_of(note)->0;
        picker_opened(
            config,
            s,
            Overlay::FlashFaderColorPicker { page_idx: s.current_page, col },
        )
    } else if page.custom_mode {
        if long {
            picker_opened(config, s, Overlay::ColorPicker { page_idx: s.current_page, note })
        } else {
            (s, custom_press(config, s, note))
        }
    } else {
        idle(s)
    }
}

/// What a message that comes in at time `now` does.
pub open spec fn step(config: Config, s: Surface, event: MidiEvent, now: u64) -> (
    Surface,
    Seq<Effect>,
) {
    match event {
        MidiEvent::Control { number, value } => control(config, s, number, value),
        MidiEvent::NoteOn { note } => note_on(config, s, note, now),
        MidiEvent::NoteOff { note } => note_off(
            config,
            Surface { press_times: s.press_times.remove(note), ..s },
            note,
            held_for(s.press_times, note, now),
        ),
        MidiEvent::Other => idle(s),
    }
}

/// Whether a message can be taken: it does not switch to a page that cannot be drawn.
pub open spec fn can_take(config: Config, s: Surface, event: MidiEvent) -> bool {
    match event {
        MidiEvent::Control { number, value } => value > 0 && s.overlay is Closed ==> (
        selector_index(number) matches Some(index) ==> can_show(config.pages@, s.rgbw, index)),
        _ => true,
    }
}

/// A pad of a normal page was pressed.
pub fn handle_button(note: u8, state: &BridgeState) -> (actions: Vec<Action>)
    requires
        state.current_page < state.config.pages@.len(),
    ensures
        effects(actions@) == button_press(state.page(), note),
{
    let page = &state.config.pages[state.current_page];
    let mut actions = no_actions();
    if let Some(i) = button_index(&page.buttons, note) {
        let button = &page.buttons[i];
        push_osc(&mut actions, &button.osc_address, button.osc_value);
    }
    assert(effects(actions@) =~= button_press(state.page(), note));
    actions
}

/// A pad of a custom page was released after a short press.
pub fn handle_custom_button(note: u8, state: &BridgeState) -> (actions: Vec<Action>)
    requires
        state.current_page < state.config.pages@.len(),
    ensures
        effects(actions@) == custom_press(state.config, state@, note),
{
    let address = state.custom_osc_address(state.current_page, note);
    let buttons = &state.config.pages[state.current_page].buttons;
    let value: OscValue = match button_index(buttons, note) {
        Some(i) => buttons[i].osc_value,
        None => OscValue::Ratio { num: 1, den: 1 },
    };
    let mut actions = no_actions();
    push_osc(&mut actions, &address, value);
    assert(effects(actions@) =~= custom_press(state.config, state@, note));
    actions
}

/// A pad of an XY page was pressed.
pub fn handle_xy(note: u8, state: &mut BridgeState) -> (actions: Vec<Action>)
    requires
        old(state).wf(),
    ensures
        final(state).wf(),
        final(state).same_setup(*old(state)),
        (final(state)@, effects(actions@)) == xy_press(old(state).config, old(state)@, note),
{
    let mut actions = no_actions();
    if let Some((col, row)) = note_to_grid(note) {
        state.xy_selected = Some((col, row));
        let page = &state.config.pages[state.current_page];
        if let Some(xy) = &page.xy_config {
            state.nudge_pan.insert(state.current_page, cell_position(col));
            state.nudge_tilt.insert(state.current_page, cell_position(7 - row));
            push_osc(&mut actions, &xy.pan_address, OscValue::Ratio { num: col, den: 7 });
            push_osc(&mut actions, &xy.tilt_address, OscValue::Ratio { num: 7 - row, den: 7 });
        }
        push_midi(&mut actions, render_page(state));
    }
    assert(effects(actions@) =~= xy_press(old(state).config, old(state)@, note).1);
    actions
}

/// A pad of a nudge page was pressed.
pub fn handle_nudge_xy(note: u8, state: &mut BridgeState) -> (actions: Vec<Action>)
    requires
        old(state).current_page < old(state).config.pages@.len(),
        positions_wf(old(state)@.nudge_pan),
        positions_wf(old(state)@.nudge_tilt),
    ensures
        old(state).wf() ==> final(state).wf(),
        final(state).same_setup(*old(state)),
        (final(state)@, effects(actions@)) == nudge_press(old(state).config, old(state)@, note),
{
    let mut actions = no_actions();
    if let Some((col, row)) = note_to_grid(note) {
        if let Some((pan_delta, tilt_delta)) = nudge_from_position(col, row) {
            let page = &state.config.pages[state.current_page];
            if let Some(xy) = &page.xy_config {
                let start_pan: u32 = match state.nudge_pan.get(&state.current_page) {
                    Some(units) => *units,
                    None => CENTRE,
                };
                let start_tilt: u32 = match state.nudge_tilt.get(&state.current_page) {
                    Some(units) => *units,
                    None => CENTRE,
                };
                let pan: u32 = nudge(start_pan, pan_delta);
                let tilt: u32 = nudge(start_tilt, tilt_delta);
                state.nudge_pan.insert(state.current_page, pan);
                state.nudge_tilt.insert(state.current_page, tilt);
                push_osc(&mut actions, &xy.pan_address, OscValue::Position { units: pan });
                push_osc(&mut actions, &xy.tilt_address, OscValue::Position { units: tilt });
            }
        }
    }
    assert(effects(actions@) =~= nudge_press(old(state).config, old(state)@, note).1);
    actions
}

/// Appends the message for a column's address, where the column has one.
fn push_column(actions: &mut Vec<Action>, addresses: &Vec<String>, col: u8, value: OscValue)
    ensures
        effects(final(actions)@) == effects(old(actions)@) + column_message(
            addresses@,
            col,
            value,
        ),
{
    if (col as usize) < addresses.len() {
        push_osc(actions, &addresses[col as usize], value);
    }
    assert(effects(actions@) =~= effects(old(actions)@) + column_message(addresses@, col, value));
}

/// A pad of a fader page was pressed.
pub fn handle_fader(note: u8, state: &mut BridgeState) -> (actions: Vec<Action>)
    requires
        old(state).wf(),
    ensures
        final(state).wf(),
        final(state).same_setup(*old(state)),
        (final(state)@, effects(actions@)) == fader_press(old(state).config, old(state)@, note),
{
    let mut actions = no_actions();
    if let Some((col, row)) = note_to_grid(note) {
        let step: u8 = row + 1;
        let current: u8 = state.fader_levels[col as usize];
        let level: u8 = if current == step {
            0
        } else {
            step
        };
        state.fader_levels.set(col as usize, level);
        let value: OscValue = if level == 0 {
            OscValue::Ratio { num: 0, den: 1 }
        } else {
            OscValue::Ratio { num: level - 1, den: 7 }
        };
        let page = &state.config.pages[state.current_page];
        if let Some(fader) = &page.fader_config {
            push_column(&mut actions, &fader.addresses, col, value);
        }
        push_midi(&mut actions, render_page(state));
    }
    assert(effects(actions@) =~= fader_press(old(state).config, old(state)@, note).1);
    actions
}

/// A pad of a flash page was pressed or released.
pub fn handle_flash_fader(note: u8, pressed: bool, state: &mut BridgeState) -> (actions: Vec<
    Action,
>)
    requires
        old(state).wf(),
    ensures
        final(state).wf(),
        final(state).same_setup(*old(state)),
        (final(state)@, effects(actions@)) == flash_event(
            old(state).config,
            old(state)@,
            note,
            pressed,
        ),
{
    let mut actions = no_actions();
    if let Some((col, row)) = note_to_grid(note) {
        let page = &state.config.pages[state.current_page];
        if let Some(fader) = &page.fader_config {
            let current: u8 = state.fader_levels[col as usize];
            if row == 0 {
                state.flash_buttons_pressed.set(col as usize, pressed);
                let value: OscValue = if pressed && current != 0 {
                    OscValue::Ratio { num: current - 1, den: 6 }
                } else {
                    OscValue::Ratio { num: 0, den: 1 }
                };
                push_column(&mut actions, &fader.addresses, col, value);
                push_midi(&mut actions, render_page(state));
            } else if pressed {
                let level: u8 = if current == row {
                    0
                } else {
                    row
                };
                state.fader_levels.set(col as usize, level);
                push_midi(&mut actions, render_page(state));
            }
        }
    }
    assert(effects(actions@) =~= flash_event(
        old(state).config,
        old(state)@,
        note,
        pressed,
    ).1);
    actions
}

/// Appends the messages for a level of a profile.
fn push_profile(
    actions: &mut Vec<Action>,
    rgbw: &RgbwConfig,
    profile: usize,
    channel: usize,
    value: OscValue,
)
    requires
        channel < 4,
    ensures
        effects(final(actions)@) == effects(old(actions)@) + osc_to_all(
            profile_addresses(*rgbw, profile as int, channel as int),
            value,
        ),
{
    let ghost before = effects(actions@);
    let all: &Vec<String> = match channel {
        0 => &rgbw.r_addresses,
        1 => &rgbw.g_addresses,
        2 => &rgbw.b_addresses,
        _ => &rgbw.w_addresses,
    };
    assert(all@ == channel_addresses(*rgbw, channel as int));
    if profile == 0 {
        let ghost target = osc_to_all(all@, value);
        let mut i: usize = 0;
        assert(before + target.take(0) =~= before);
        while i < all.len()
            invariant
                i <= all@.len(),
                target == osc_to_all(all@, value),
                effects(actions@) == before + target.take(i as int),
            decreases all@.len() - i,
        {
            push_osc(actions, &all[i], value);
            i = i + 1;
            assert(effects(actions@) =~= before + target.take(i as int));
        }
        assert(target.take(i as int) =~= target);
    } else {
        let fixture: usize = profile - 1;
        if fixture < all.len() {
            push_osc(actions, &all[fixture], value);
        }
        assert(effects(actions@) =~= before + osc_to_all(
            profile_addresses(*rgbw, profile as int, channel as int),
            value,
        ));
    }
}

/// The profiles of the current page; new ones where it has none.
fn current_rgbw(state: &BridgeState) -> (rgbw: RgbwState)
    ensures
        rgbw@ == rgbw_at(state@.rgbw, state.current_page),
{
    assert(state@.rgbw.contains_key(state.current_page) == state.rgbw_states@.contains_key(
        state.current_page,
    ));
    match state.rgbw_states.get(&state.current_page) {
        Some(rgbw) => {
            assert(state@.rgbw[state.current_page] == rgbw@);
            *rgbw
        },
        None => RgbwState::default(),
    }
}

/// Keeps profiles for the current page.
fn store_rgbw(state: &mut BridgeState, rgbw: RgbwState)
    requires
        old(state).setup_wf(),
        pages_wf(old(state).config, old(state)@),
        rgbw@.wf(),
    ensures
        final(state).wf(),
        final(state).same_setup(*old(state)),
        final(state)@ == (Surface {
            rgbw: old(state)@.rgbw.insert(old(state).current_page, rgbw@),
            ..old(state)@
        }),
{
    let ghost before = state.rgbw_states@;
    let page_idx: usize = state.current_page;
    state.rgbw_states.insert(page_idx, rgbw);
    assert(rgbw_view(state.rgbw_states@) =~= rgbw_view(before).insert(page_idx, rgbw@));
}

/// A pad of an RGBW page was pressed. A page without profiles gets new ones.
pub fn handle_rgbw_grid(note: u8, state: &mut BridgeState) -> (actions: Vec<Action>)
    requires
        old(state).setup_wf(),
        pages_wf(old(state).config, old(state)@),
        rgbw_at(old(state)@.rgbw, old(state).current_page).wf(),
    ensures
        old(state).wf() || cell_of(note) is Some ==> final(state).wf(),
        final(state).same_setup(*old(state)),
        (final(state)@, effects(actions@)) == rgbw_press(old(state).config, old(state)@, note),
{
    let mut actions = no_actions();
    if let Some((col, row)) = note_to_grid(note) {
        let channel: usize = (col / 2) as usize;
        let step: u8 = row + 1;
        let mut rgbw = current_rgbw(state);
        let active: usize = rgbw.active_profile;
        let current: u8 = rgbw.profiles[active].levels[channel];
        let level: u8 = if current == step {
            0
        } else {
            step
        };
        rgbw.set_level(channel, level);
        store_rgbw(state, rgbw);
        let page = &state.config.pages[state.current_page];
        if let Some(config) = &page.rgbw_config {
            push_profile(
                &mut actions,
                config,
                active,
                channel,
                OscValue::Ratio { num: level, den: 8 },
            );
        }
        push_action(&mut actions, Action::SaveRgbw);
        push_midi(&mut actions, render_page(state));
    }
    assert(effects(actions@) =~= rgbw_press(old(state).config, old(state)@, note).1);
    actions
}

/// A button of the right column of an RGBW page was pressed. A page without profiles
/// gets new ones.
pub fn handle_rgbw_profile(right_idx: usize, state: &mut BridgeState) -> (actions: Vec<Action>)
    requires
        old(state).setup_wf(),
        pages_wf(old(state).config, old(state)@),
        right_idx < 8,
    ensures
        old(state).wf() || right_idx > 0 ==> final(state).wf(),
        final(state).same_setup(*old(state)),
        (final(state)@, effects(actions@)) == profile_press(
            old(state).config,
            old(state)@,
            right_idx,
        ),
{
    let mut actions = no_actions();
    if right_idx == 0 {
        return actions;
    }
    let new_profile: usize = 7 - right_idx;
    let mut rgbw = current_rgbw(state);
    if new_profile == rgbw.active_profile {
        store_rgbw(state, rgbw);
        return actions;
    }
    rgbw.select_profile(new_profile);
    store_rgbw(state, rgbw);
    push_action(&mut actions, Action::SaveRgbw);
    push_midi(&mut actions, render_page(state));
    assert(effects(actions@) =~= profile_press(old(state).config, old(state)@, right_idx).1);
    actions
}

/// Switches to a page.
fn switch_page(index: usize, state: &mut BridgeState)
    requires
        old(state).wf(),
        index < old(state).config.pages@.len(),
        can_show(old(state).config.pages@, old(state)@.rgbw, index),
    ensures
        final(state).wf(),
        final(state).same_setup(*old(state)),
        final(state)@ == page_switched(old(state).config, old(state)@, index),
{
    state.current_page = index;
    state.fader_levels = new_levels();
    state.xy_selected = None;
    state.press_times.clear();
    if state.config.pages[index].rgbw_mode {
        state.ensure_rgbw_state(index);
    }
}

/// A button of the top row or the right column was pressed or released.
fn handle_control(number: u8, value: u8, state: &mut BridgeState) -> (actions: Vec<Action>)
    requires
        old(state).wf(),
        can_take(old(state).config, old(state)@, (MidiEvent::Control { number, value })),
    ensures
        final(state).wf(),
        final(state).same_setup(*old(state)),
        (final(state)@, effects(actions@)) == control(
            old(state).config,
            old(state)@,
            number,
            value,
        ),
{
    let mut actions = no_actions();
    if value == 0 {
        if number == 19 {
            state.color_picker_modifier_active = false;
        }
        return actions;
    }
    if number == 19 {
        state.color_picker_modifier_active = !state.color_picker_modifier_active;
        push_midi(&mut actions, render_page(state));
        assert(effects(actions@) =~= seq![redraw(state.config, state@)]);
        return actions;
    }
    if let Some(index) = page_for_cc(number) {
        let open: bool = match state.overlay {
            Overlay::Closed => false,
            _ => true,
        };
        if open {
            state.overlay = Overlay::Closed;
            push_midi(&mut actions, render_page(state));
            assert(effects(actions@) =~= seq![redraw(state.config, state@)]);
        } else if index < state.config.pages.len() {
            switch_page(index, state);
            push_midi(&mut actions, render_page(state));
            assert(effects(actions@) =~= seq![redraw(state.config, state@)]);
        }
        return actions;
    }
    if state.config.pages[state.current_page].rgbw_mode {
        if let Some(index) = right_column_index(number) {
            assert(is_rgbw_page(state.config.pages@, state.current_page));
            return handle_rgbw_profile(index, state);
        }
    }
    actions
}

/// A pad was pressed while the colour picker was open.
fn handle_picker(note: u8, state: &mut BridgeState) -> (actions: Vec<Action>)
    requires
        old(state).wf(),
    ensures
        final(state).wf(),
        final(state).same_setup(*old(state)),
        (final(state)@, effects(actions@)) == picker_press(old(state).config, old(state)@, note),
{
    let mut actions = no_actions();
    if let Some((col, row)) = note_to_grid(note) {
        let chosen: u8 = picker_color_for_cell(col, row);
        match state.overlay {
            Overlay::ColorPicker { page_idx, note: target } => {
                state.custom_colors.insert(page_idx, target, chosen);
                push_action(&mut actions, Action::SaveColors);
            },
            Overlay::FlashFaderColorPicker { page_idx, col: target } => {
                state.fader_colors.insert(page_idx, target, chosen);
                push_action(&mut actions, Action::SaveFaderColors);
            },
            Overlay::Closed => {},
        }
    }
    state.overlay = Overlay::Closed;
    push_midi(&mut actions, render_page(state));
    assert(effects(actions@) =~= picker_press(old(state).config, old(state)@, note).1);
    actions
}

/// A pad was pressed while the modifier was active.
fn handle_modified(note: u8, state: &mut BridgeState) -> (actions: Vec<Action>)
    requires
        old(state).wf(),
        old(state).overlay is Closed,
    ensures
        final(state).wf(),
        final(state).same_setup(*old(state)),
        (final(state)@, effects(actions@)) == modifier_press(
            old(state).config,
            old(state)@,
            note,
        ),
{
    let page_idx: usize = state.current_page;
    let page = &state.config.pages[page_idx];
    if page.custom_mode {
        return open_picker(Overlay::ColorPicker { page_idx, note }, state);
    }
    if page.flash_fader_mode {
        if let Some((col, row)) = note_to_grid(note) {
            if row > 0 {
                return open_picker(Overlay::FlashFaderColorPicker { page_idx, col }, state);
            }
        }
    }
    no_actions()
}

/// A pad was pressed at time `now`.
pub fn handle_note_on(note: u8, now: u64, state: &mut BridgeState) -> (actions: Vec<Action>)
    requires
        old(state).wf(),
    ensures
        final(state).wf(),
        final(state).same_setup(*old(state)),
        (final(state)@, effects(actions@)) == note_on(
            old(state).config,
            old(state)@,
            note,
            now,
        ),
{
    state.press_times.insert(note, now);
    let open: bool = match state.overlay {
        Overlay::Closed => false,
        _ => true,
    };
    if open {
        return handle_picker(note, state);
    }
    if state.color_picker_modifier_active {
        return handle_modified(note, state);
    }
    let page = &state.config.pages[state.current_page];
    if page.rgbw_mode {
        assert(is_rgbw_page(state.config.pages@, state.current_page));
        handle_rgbw_grid(note, state)
    } else if page.nudge_xy_mode {
        handle_nudge_xy(note, state)
    } else if page.xy_mode {
        handle_xy(note, state)
    } else if page.fader_mode {
        handle_fader(note, state)
    } else if page.flash_fader_mode {
        handle_flash_fader(note, true, state)
    } else if page.custom_mode {
        no_actions()
    } else {
        handle_button(note, state)
    }
}

/// Opens the colour picker.
fn open_picker(overlay: Overlay, state: &mut BridgeState) -> (actions: Vec<Action>)
    requires
        old(state).wf(),
        surface_wf(old(state).config, (Surface { overlay, ..old(state)@ })),
    ensures
        final(state).wf(),
        final(state).same_setup(*old(state)),
        (final(state)@, effects(actions@)) == picker_opened(
            old(state).config,
            old(state)@,
            overlay,
        ),
{
    state.overlay = overlay;
    let mut actions = no_actions();
    push_midi(&mut actions, render_page(state));
    assert(effects(actions@) =~= seq![redraw(state.config, state@)]);
    actions
}

/// A pad was released that was held for some nanoseconds.
pub fn handle_note_off(note: u8, elapsed: u64, state: &mut BridgeState) -> (actions: Vec<Action>)
    requires
        old(state).wf(),
    ensures
        final(state).wf(),
        final(state).same_setup(*old(state)),
        (final(state)@, effects(actions@)) == note_off(
            old(state).config,
            old(state)@,
            note,
            elapsed as int,
        ),
{
    let open: bool = match state.overlay {
        Overlay::Closed => false,
        _ => true,
    };
    if open {
        return no_actions();
    }
    let page_idx: usize = state.current_page;
    let page = &state.config.pages[page_idx];
    let long: bool = elapsed >= LONG_PRESS_NANOS;
    if page.flash_fader_mode {
        if let Some((col, row)) = note_to_grid(note) {
            if row == 0 {
                return handle_flash_fader(note, false, state);
            }
            if long {
                return open_picker(Overlay::FlashFaderColorPicker { page_idx, col }, state);
            }
        }
    }
    if page.custom_mode {
        if long {
            open_picker(Overlay::ColorPicker { page_idx, note }, state)
        } else {
            handle_custom_button(note, state)
        }
    } else {
        no_actions()
    }
}

/// Whether a message can be taken: it does not switch to an RGBW page whose profiles
/// were saved with one shown that does not exist.
pub fn can_handle(message: &[u8], state: &BridgeState) -> (can: bool)
    ensures
        can == can_take(state.config, state@, event_of(message@)),
{
    if let MidiEvent::Control { number, value } = parse_midi(message) {
        if value > 0 && state.overlay == Overlay::Closed {
            if let Some(index) = page_for_cc(number) {
                return state.can_show_page(index);
            }
        }
    }
    true
}

/// A MIDI message came in at time `now`, in nanoseconds.
pub fn handle_midi(message: &[u8], now: u64, state: &mut BridgeState) -> (actions: Vec<Action>)
    requires
        old(state).wf(),
        can_take(old(state).config, old(state)@, event_of(message@)),
    ensures
        final(state).wf(),
        final(state).same_setup(*old(state)),
        (final(state)@, effects(actions@)) == step(
            old(state).config,
            old(state)@,
            event_of(message@),
            now,
        ),
{
    match parse_midi(message) {
        MidiEvent::Control { number, value } => handle_control(number, value, state),
        MidiEvent::NoteOn { note } => handle_note_on(note, now, state),
        MidiEvent::NoteOff { note } => {
            let elapsed: u64 = release_time(&mut state.press_times, note, now);
            handle_note_off(note, elapsed, state)
        },
        MidiEvent::Other => no_actions(),
    }
}

} // verus!
