//! What MIDI messages do.

use vstd::prelude::*;

use crate::actions::{
    effects, no_actions, one, osc, push_action, push_midi, push_osc, Action, Effect, OscValue,
};
use crate::grid::{
    cell_of, note_to_grid, page_for_cc, right_column_index, right_index, selector_index,
};
use crate::midi::{event_of, parse_midi, MidiEvent};
use crate::pages::{faders_off, held_for, new_levels, release_time, toggled, LONG_PRESS_NANOS};
use crate::paps::beat::{beat_started, BeatModel, Tempo};
use crate::paps::leds::{led_message, set_single_led};
use crate::paps::picker::{picker_color, picker_color_for_cell};
use crate::paps::render::{is_on, redraw, render_page};
use crate::paps::state::{
    button_index, custom_address, find_button, next_epoch, BridgeState, Config, Overlay, PageConfig,
    Surface, XyAdjustMode,
};

verus! {

broadcast use vstd::std_specs::hash::group_hash_axioms;

/// Nothing happens.
pub open spec fn idle(s: Surface) -> (Surface, Seq<Effect>) {
    (s, Seq::empty())
}

/// The message that sets one LED.
pub open spec fn light(note: u8, color: u8) -> Effect {
    Effect::Midi { bytes: led_message(seq![(note, color)]) }
}

/// A pad of a normal or move page: the first button with that note sends its value.
pub open spec fn button_press(page: PageConfig, note: u8) -> Seq<Effect> {
    match find_button(page.buttons@, note) {
        Some(button) => seq![osc(button.osc_address@, button.osc_value)],
        None => Seq::empty(),
    }
}

/// A short press on a custom page: the pad sends the value of its button, 1 where
/// it has none.
pub open spec fn custom_press(config: Config, s: Surface, note: u8) -> Seq<Effect> {
    seq![
        osc(
            custom_address(config, s.current_page, note),
            match find_button(config.pages@[s.current_page as int].buttons@, note) {
                Some(button) => button.osc_value,
                None => one(),
            },
        ),
    ]
}

/// A pad of an RGB page: it is switched on or off and shows it.
pub open spec fn rgb_press(config: Config, s: Surface, note: u8) -> (Surface, Seq<Effect>) {
    match find_button(config.pages@[s.current_page as int].buttons@, note) {
        Some(button) => {
            let next = !is_on(s.rgb_states, note);
            (
                Surface { rgb_states: s.rgb_states.insert(note, next), ..s },
                if next {
                    seq![osc(button.osc_address@, button.osc_value), light(note, button.color_on)]
                } else {
                    seq![
                        osc(button.osc_address@, button.osc_value_off),
                        light(note, button.color_off),
                    ]
                },
            )
        },
        None => idle(s),
    }
}

/// A pad of a flash page is pressed: it sends its value and is white while held.
pub open spec fn flash_press(page: PageConfig, note: u8) -> Seq<Effect> {
    match find_button(page.buttons@, note) {
        Some(button) => seq![osc(button.osc_address@, button.osc_value), light(note, 72)],
        None => Seq::empty(),
    }
}

/// A pad of a flash page is released: it sends its other value and has its colour again.
pub open spec fn flash_release(page: PageConfig, note: u8) -> Seq<Effect> {
    match find_button(page.buttons@, note) {
        Some(button) => seq![
            osc(button.osc_address@, button.osc_value_off),
            light(note, button.color_on),
        ],
        None => Seq::empty(),
    }
}

/// A pad of an XY page: the cell is selected, pan goes from left to right and tilt
/// from top to bottom, both in sevenths.
pub open spec fn xy_press(config: Config, s: Surface, note: u8) -> (Surface, Seq<Effect>) {
    match cell_of(note) {
        Some((col, row)) => {
            let after = Surface { xy_selected: Some((col, row)), ..s };
            let sent = match config.pages@[s.current_page as int].xy_config {
                Some(xy) => seq![
                    osc(xy.pan_address@, OscValue::Ratio { num: col, den: 7 }),
                    osc(xy.tilt_address@, OscValue::Ratio { num: (7 - row) as u8, den: 7 }),
                ],
                None => Seq::empty(),
            };
            (after, sent.push(redraw(config, after)))
        },
        None => idle(s),
    }
}

/// A pad of a fader page: the column's level changes and is sent in eighths.
pub open spec fn fader_press(config: Config, s: Surface, note: u8) -> (Surface, Seq<Effect>) {
    match cell_of(note) {
        Some((col, row)) => {
            let level = toggled(s.fader_levels[col as int], (row + 1) as u8);
            let after = Surface { fader_levels: s.fader_levels.update(col as int, level), ..s };
            let sent = match config.pages@[s.current_page as int].fader_config {
                Some(fader) => if col < fader.addresses@.len() {
                    seq![
                        osc(fader.addresses@[col as int]@, OscValue::Ratio { num: level, den: 8 }),
                    ]
                } else {
                    Seq::empty()
                },
                None => Seq::empty(),
            };
            (after, sent.push(redraw(config, after)))
        },
        None => idle(s),
    }
}

/// The other mode.
pub open spec fn other_mode(mode: XyAdjustMode) -> XyAdjustMode {
    match mode {
        XyAdjustMode::Coarse => XyAdjustMode::Fine,
        XyAdjustMode::Fine => XyAdjustMode::Coarse,
    }
}

/// What a button of the right column does to a running chase.
pub open spec fn beat_button(beat: BeatModel, note: u8, now: u64) -> BeatModel {
    if note == 59 {
        beat.tapped(now)
    } else if note == 49 {
        beat.next_palette()
    } else if note == 39 {
        beat.previous_palette()
    } else {
        beat
    }
}

/// A button of the right column. On an XY page the top one changes the mode, and in
/// fine mode the two below make the step larger, up to 4, and smaller, down to 1. On
/// a beat page there are tap, next palette and previous palette.
pub open spec fn right_press(config: Config, s: Surface, note: u8, now: u64) -> (
    Surface,
    Seq<Effect>,
) {
    let page = config.pages@[s.current_page as int];
    if page.xy_mode {
        if note == 89 {
            let after = Surface { adjust_mode: other_mode(s.adjust_mode), ..s };
            (after, seq![redraw(config, after)])
        } else if note == 79 && s.adjust_mode is Fine && s.fine_step < 4 {
            idle(Surface { fine_step: (s.fine_step + 1) as u8, ..s })
        } else if note == 69 && s.adjust_mode is Fine && s.fine_step > 1 {
            idle(Surface { fine_step: (s.fine_step - 1) as u8, ..s })
        } else {
            idle(s)
        }
    } else if page.beat_mode {
        idle(
            Surface {
                beat: match s.beat {
                    Some(beat) => Some(beat_button(beat, note, now)),
                    None => None,
                },
                ..s
            },
        )
    } else {
        idle(s)
    }
}

/// Switching to a page: the chase ends, faders are off, no cell is selected, all RGB
/// pads are off. A beat page starts a chase.
pub open spec fn page_switched(config: Config, s: Surface, index: usize) -> (
    Surface,
    Seq<Effect>,
) {
    let page = config.pages@[index as int];
    let plain = Surface {
        current_page: index,
        fader_levels: faders_off(),
        xy_selected: None,
        rgb_states: Map::empty(),
        beat: None,
        ..s
    };
    match page.beat_config {
        Some(beat) => if page.beat_mode {
            let epoch = next_epoch(s.beat_epoch);
            let after = Surface { beat: Some(beat_started(beat)), beat_epoch: epoch, ..plain };
            (after, seq![Effect::StartBeat { epoch }, redraw(config, after)])
        } else {
            (plain, seq![redraw(config, plain)])
        },
        None => (plain, seq![redraw(config, plain)]),
    }
}

/// A button of the top row: it closes the colour picker where that is open, else
/// switches to its page.
pub open spec fn control(config: Config, s: Surface, number: u8, value: u8) -> (
    Surface,
    Seq<Effect>,
) {
    match selector_index(number) {
        Some(index) => if value == 0 {
            idle(s)
        } else if s.overlay is ColorPicker {
            let after = Surface { overlay: Overlay::Closed, ..s };
            (after, seq![redraw(config, after)])
        } else if index < config.pages@.len() {
            page_switched(config, s, index)
        } else {
            idle(s)
        },
        None => idle(s),
    }
}

/// A press while the colour picker is open: a pad of the grid chooses its colour, and
/// the picker closes in any case.
pub open spec fn picker_press(config: Config, s: Surface, note: u8) -> (Surface, Seq<Effect>) {
    let closed = Surface { overlay: Overlay::Closed, ..s };
    let after = match (cell_of(note), s.overlay) {
        (Some((col, row)), Overlay::ColorPicker { page_idx, note: target }) => Surface {
            custom_colors: s.custom_colors.insert((page_idx, target), picker_color(col, row)),
            ..closed
        },
        _ => closed,
    };
    (after, seq![redraw(config, after)])
}

/// A press on the page itself.
pub open spec fn page_press(config: Config, s: Surface, note: u8) -> (Surface, Seq<Effect>) {
    let page = config.pages@[s.current_page as int];
    if page.rgb_mode {
        rgb_press(config, s, note)
    } else if page.flash_mode {
        (s, flash_press(page, note))
    } else if page.move_mode {
        (s, button_press(page, note))
    } else if page.beat_mode {
        idle(s)
    } else if page.xy_mode {
        xy_press(config, s, note)
    } else if page.fader_mode {
        fader_press(config, s, note)
    } else if page.custom_mode {
        idle(s)
    } else {
        (s, button_press(page, note))
    }
}

/// A pad or a button of the right column was pressed.
pub open spec fn note_on(config: Config, s: Surface, note: u8, now: u64) -> (
    Surface,
    Seq<Effect>,
) {
    if s.overlay is ColorPicker {
        picker_press(config, s, note)
    } else if right_index(note) is Some {
        right_press(config, s, note, now)
    } else {
        page_press(config, s, note)
    }
}

/// A pad was released after a time: a flash pad sends its other value; a custom pad
/// sends its message, or opens the colour picker where the press was long.
pub open spec fn note_off(config: Config, s: Surface, note: u8, elapsed: int) -> (
    Surface,
    Seq<Effect>,
) {
    let page = config.pages@[s.current_page as int];
    if right_index(note) is Some {
        idle(s)
    } else if page.flash_mode {
        (s, flash_release(page, note))
    } else if page.custom_mode {
        if elapsed >= LONG_PRESS_NANOS {
            let after = Surface {
                overlay: Overlay::ColorPicker { page_idx: s.current_page, note },
                ..s
            };
            (after, seq![redraw(config, after)])
        } else {
            (s, custom_press(config, s, note))
        }
    } else {
        idle(s)
    }
}

/// What a message that comes in at time `now` does.
pub open spec fn step(config: Config, s: Surface, event: MidiEvent, now: u64) -> (
    Surface,
    Seq<Effect>,
) {
    match event {
        MidiEvent::Control { number, value } => control(config, s, number, value),
        MidiEvent::NoteOn { note } => note_on(
            config,
            Surface { press_times: s.press_times.insert(note, now), ..s },
            note,
            now,
        ),
        MidiEvent::NoteOff { note } => note_off(
            config,
            Surface { press_times: s.press_times.remove(note), ..s },
            note,
            held_for(s.press_times, note, now),
        ),
        MidiEvent::Other => idle(s),
    }
}

/// A beat of the chase of this epoch: nothing where that chase has ended.
pub open spec fn beat(s: Surface, epoch: u64) -> Option<(Surface, Seq<Effect>)> {
    match s.beat {
        Some(model) => if epoch == s.beat_epoch {
            Some((Surface { beat: Some(model.beaten()), ..s }, model.beat_messages()))
        } else {
            None
        },
        None => None,
    }
}

/// A pad of a normal page was pressed.
pub fn handle_button(note: u8, state: &BridgeState) -> (actions: Vec<Action>)
    requires
        state.current_page < state.config.pages@.len(),
    ensures
        effects(actions@) == button_press(state.page(), note),
{
    let page = &state.config.pages[state.current_page];
    let mut actions = no_actions();
    if let Some(i) = button_index(&page.buttons, note) {
        let button = &page.buttons[i];
        push_osc(&mut actions, &button.osc_address, button.osc_value);
    }
    assert(effects(actions@) =~= button_press(state.page(), note));
    actions
}

/// A pad of a move page was pressed.
pub fn handle_move(note: u8, state: &BridgeState) -> (actions: Vec<Action>)
    requires
        state.current_page < state.config.pages@.len(),
    ensures
        effects(actions@) == button_press(state.page(), note),
{
    handle_button(note, state)
}

/// A pad of a custom page was released after a short press.
pub fn handle_custom_button(note: u8, state: &BridgeState) -> (actions: Vec<Action>)
    requires
        state.current_page < state.config.pages@.len(),
    ensures
        effects(actions@) == custom_press(state.config, state@, note),
{
    let address = state.custom_osc_address(state.current_page, note);
    let buttons = &state.config.pages[state.current_page].buttons;
    let value: OscValue = match button_index(buttons, note) {
        Some(i) => buttons[i].osc_value,
        None => OscValue::Ratio { num: 1, den: 1 },
    };
    let mut actions = no_actions();
    push_osc(&mut actions, &address, value);
    assert(effects(actions@) =~= custom_press(state.config, state@, note));
    actions
}

/// A pad of an RGB page was pressed.
pub fn handle_rgb_on(note: u8, state: &mut BridgeState) -> (actions: Vec<Action>)
    requires
        old(state).current_page < old(state).config.pages@.len(),
    ensures
        old(state).wf() ==> final(state).wf(),
        final(state).same_setup(*old(state)),
        (final(state)@, effects(actions@)) == rgb_press(old(state).config, old(state)@, note),
{
    let mut actions = no_actions();
    let page = &state.config.pages[state.current_page];
    if let Some(i) = button_index(&page.buttons, note) {
        let button = &page.buttons[i];
        let current: bool = match state.rgb_states.get(&note) {
            Some(on) => *on,
            None => false,
        };
        let next: bool = !current;
        state.rgb_states.insert(note, next);
        let (value, color): (OscValue, u8) = if next {
            (button.osc_value, button.color_on)
        } else {
            (button.osc_value_off, button.color_off)
        };
        push_osc(&mut actions, &button.osc_address, value);
        push_midi(&mut actions, set_single_led(note, color));
    }
    assert(effects(actions@) =~= rgb_press(old(state).config, old(state)@, note).1);
    actions
}

/// A pad of a flash page was pressed.
pub fn handle_flash_on(note: u8, state: &BridgeState) -> (actions: Vec<Action>)
    requires
        state.current_page < state.config.pages@.len(),
    ensures
        effects(actions@) == flash_press(state.page(), note),
{
    let page = &state.config.pages[state.current_page];
    let mut actions = no_actions();
    if let Some(i) = button_index(&page.buttons, note) {
        let button = &page.buttons[i];
        push_osc(&mut actions, &button.osc_address, button.osc_value);
        push_midi(&mut actions, set_single_led(note, 72));
    }
    assert(effects(actions@) =~= flash_press(state.page(), note));
    actions
}

/// A pad of a flash page was released.
pub fn handle_flash_off(note: u8, state: &BridgeState) -> (actions: Vec<Action>)
    requires
        state.current_page < state.config.pages@.len(),
    ensures
        effects(actions@) == flash_release(state.page(), note),
{
    let page = &state.config.pages[state.current_page];
    let mut actions = no_actions();
    if let Some(i) = button_index(&page.buttons, note) {
        let button = &page.buttons[i];
        push_osc(&mut actions, &button.osc_address, button.osc_value_off);
        push_midi(&mut actions, set_single_led(note, button.color_on));
    }
    assert(effects(actions@) =~= flash_release(state.page(), note));
    actions
}

/// A pad of an XY page was pressed.
pub fn handle_xy(note: u8, state: &mut BridgeState) -> (actions: Vec<Action>)
    requires
        old(state).wf(),
    ensures
        final(state).wf(),
        final(state).same_setup(*old(state)),
        (final(state)@, effects(actions@)) == xy_press(old(state).config, old(state)@, note),
{
    let mut actions = no_actions();
    if let Some((col, row)) = note_to_grid(note) {
        state.xy_selected = Some((col, row));
        let page = &state.config.pages[state.current_page];
        if let Some(xy) = &page.xy_config {
            push_osc(&mut actions, &xy.pan_address, OscValue::Ratio { num: col, den: 7 });
            push_osc(&mut actions, &xy.tilt_address, OscValue::Ratio { num: 7 - row, den: 7 });
        }
        push_midi(&mut actions, render_page(state));
    }
    assert(effects(actions@) =~= xy_press(old(state).config, old(state)@, note).1);
    actions
}

/// A pad of a fader page was pressed.
pub fn handle_fader(note: u8, state: &mut BridgeState) -> (actions: Vec<Action>)
    requires
        old(state).wf(),
    ensures
        final(state).wf(),
        final(state).same_setup(*old(state)),
        (final(state)@, effects(actions@)) == fader_press(old(state).config, old(state)@, note),
{
    let mut actions = no_actions();
    if let Some((col, row)) = note_to_grid(note) {
        let step: u8 = row + 1;
        let current: u8 = state.fader_levels[col as usize];
        let level: u8 = if current == step {
            0
        } else {
            step
        };
        state.fader_levels.set(col as usize, level);
        let page = &state.config.pages[state.current_page];
        if let Some(fader) = &page.fader_config {
            if (col as usize) < fader.addresses.len() {
                push_osc(
                    &mut actions,
                    &fader.addresses[col as usize],
                    OscValue::Ratio { num: level, den: 8 },
                );
            }
        }
        push_midi(&mut actions, render_page(state));
    }
    assert(effects(actions@) =~= fader_press(old(state).config, old(state)@, note).1);
    actions
}

/// A button of the right column was pressed at time `now`.
pub fn handle_right_col(note: u8, now: u64, state: &mut BridgeState) -> (actions: Vec<Action>)
    requires
        old(state).wf(),
    ensures
        final(state).wf(),
        final(state).same_setup(*old(state)),
        (final(state)@, effects(actions@)) == right_press(
            old(state).config,
            old(state)@,
            note,
            now,
        ),
{
    let mut actions = no_actions();
    let xy_mode: bool = state.config.pages[state.current_page].xy_mode;
    let beat_mode: bool = state.config.pages[state.current_page].beat_mode;
    if xy_mode {
        match note {
            89 => {
                state.xy_adjust_mode =
                match state.xy_adjust_mode {
                    XyAdjustMode::Coarse => XyAdjustMode::Fine,
                    XyAdjustMode::Fine => XyAdjustMode::Coarse,
                };
                push_midi(&mut actions, render_page(state));
                assert(effects(actions@) =~= seq![redraw(state.config, state@)]);
            },
            79 => {
                if state.xy_adjust_mode == XyAdjustMode::Fine && state.xy_fine_step < 4 {
                    state.xy_fine_step = state.xy_fine_step + 1;
                }
            },
            69 => {
                if state.xy_adjust_mode == XyAdjustMode::Fine && state.xy_fine_step > 1 {
                    state.xy_fine_step = state.xy_fine_step - 1;
                }
            },
            _ => {},
        }
    } else if beat_mode {
        let mut beat = state.beat_state.take();
        if let Some(chase) = &mut beat {
            match note {
                59 => {
                    chase.tap(now);
                },
                49 => {
                    chase.next_palette();
                },
                39 => {
                    chase.previous_palette();
                },
                _ => {},
            }
        }
        state.beat_state = beat;
    }
    actions
}

/// A pad or a button of the right column was pressed at time `now`.
pub fn handle_note_on(note: u8, now: u64, state: &mut BridgeState) -> (actions: Vec<Action>)
    requires
        old(state).wf(),
    ensures
        final(state).wf(),
        final(state).same_setup(*old(state)),
        (final(state)@, effects(actions@)) == note_on(old(state).config, old(state)@, note, now),
{
    if let Overlay::ColorPicker { page_idx, note: target } = state.overlay {
        if let Some((col, row)) = note_to_grid(note) {
            state.custom_colors.insert(page_idx, target, picker_color_for_cell(col, row));
        }
        state.overlay = Overlay::Closed;
        let mut actions = no_actions();
        push_midi(&mut actions, render_page(state));
        assert(effects(actions@) =~= seq![redraw(state.config, state@)]);
        return actions;
    }
    if right_column_index(note).is_some() {
        return handle_right_col(note, now, state);
    }
    let page = &state.config.pages[state.current_page];
    if page.rgb_mode {
        handle_rgb_on(note, state)
    } else if page.flash_mode {
        handle_flash_on(note, state)
    } else if page.move_mode {
        handle_move(note, state)
    } else if page.beat_mode {
        no_actions()
    } else if page.xy_mode {
        handle_xy(note, state)
    } else if page.fader_mode {
        handle_fader(note, state)
    } else if page.custom_mode {
        no_actions()
    } else {
        handle_button(note, state)
    }
}

/// A pad was released that was held for some nanoseconds.
pub fn handle_note_off(note: u8, elapsed: u64, state: &mut BridgeState) -> (actions: Vec<Action>)
    requires
        old(state).wf(),
    ensures
        final(state).wf(),
        final(state).same_setup(*old(state)),
        (final(state)@, effects(actions@)) == note_off(
            old(state).config,
            old(state)@,
            note,
            elapsed as int,
        ),
{
    if right_column_index(note).is_some() {
        return no_actions();
    }
    let page = &state.config.pages[state.current_page];
    if page.flash_mode {
        handle_flash_off(note, state)
    } else if page.custom_mode {
        if elapsed >= LONG_PRESS_NANOS {
            state.overlay = Overlay::ColorPicker { page_idx: state.current_page, note };
            let mut actions = no_actions();
            push_midi(&mut actions, render_page(state));
            assert(effects(actions@) =~= seq![redraw(state.config, state@)]);
            actions
        } else {
            handle_custom_button(note, state)
        }
    } else {
        no_actions()
    }
}

/// A button of the top row sent a value.
fn handle_control(number: u8, value: u8, state: &mut BridgeState) -> (actions: Vec<Action>)
    requires
        old(state).wf(),
    ensures
        final(state).wf(),
        final(state).same_setup(*old(state)),
        (final(state)@, effects(actions@)) == control(
            old(state).config,
            old(state)@,
            number,
            value,
        ),
{
    let mut actions = no_actions();
    if value == 0 {
        return actions;
    }
    if let Some(index) = page_for_cc(number) {
        if let Overlay::ColorPicker { .. } = state.overlay {
            state.overlay = Overlay::Closed;
            push_midi(&mut actions, render_page(state));
        } else if index < state.config.pages.len() {
            state.stop_beat();
            state.current_page = index;
            state.fader_levels = new_levels();
            state.xy_selected = None;
            state.rgb_states.clear();
            if state.config.pages[index].beat_mode {
                state.init_beat();
                if state.beat_state.is_some() {
                    push_action(&mut actions, Action::StartBeat { epoch: state.beat_epoch });
                }
            }
            push_midi(&mut actions, render_page(state));
        }
    }
    assert(effects(actions@) =~= control(old(state).config, old(state)@, number, value).1);
    actions
}

/// A MIDI message came in at time `now`, in nanoseconds.
pub fn handle_midi(message: &[u8], now: u64, state: &mut BridgeState) -> (actions: Vec<Action>)
    requires
        old(state).wf(),
    ensures
        final(state).wf(),
        final(state).same_setup(*old(state)),
        (final(state)@, effects(actions@)) == step(
            old(state).config,
            old(state)@,
            event_of(message@),
            now,
        ),
{
    match parse_midi(message) {
        MidiEvent::Control { number, value } => handle_control(number, value, state),
        MidiEvent::NoteOn { note } => {
            state.press_times.insert(note, now);
            handle_note_on(note, now, state)
        },
        MidiEvent::NoteOff { note } => {
            let elapsed: u64 = release_time(&mut state.press_times, note, now);
            handle_note_off(note, elapsed, state)
        },
        MidiEvent::Other => no_actions(),
    }
}

/// A beat of the thread of an epoch: what to send, or nothing where the chase of that
/// epoch has ended, and the thread with it.
pub fn beat_tick(epoch: u64, state: &mut BridgeState) -> (actions: Option<Vec<Action>>)
    requires
        old(state).wf(),
    ensures
        final(state).wf(),
        final(state).same_setup(*old(state)),
        match actions {
            Some(list) => beat(old(state)@, epoch) == Some((final(state)@, effects(list@))),
            None => beat(old(state)@, epoch) is None && final(state)@ == old(state)@,
        },
{
    if epoch != state.beat_epoch {
        return None;
    }
    let mut running = state.beat_state.take();
    let actions: Option<Vec<Action>> = match &mut running {
        Some(chase) => Some(chase.tick()),
        None => None,
    };
    state.beat_state = running;
    actions
}

/// The tempo of the chase of an epoch; `None` where that chase has ended.
pub fn beat_tempo(epoch: u64, state: &BridgeState) -> (tempo: Option<&Tempo>)
    ensures
        match tempo {
            Some(found) => epoch == state@.beat_epoch && state@.beat is Some
                && state@.beat->Some_0.tempo == found@,
            None => epoch != state@.beat_epoch || state@.beat is None,
        },
{
    if epoch != state.beat_epoch {
        return None;
    }
    match &state.beat_state {
        Some(chase) => Some(&chase.tempo),
        None => None,
    }
}

} // verus!
