//! What the pads and buttons of the bridge are for: the numbers that they send, where
//! these go, and what stays unchanged.

use vstd::prelude::*;

use crate::actions::{sends, Effect};
use crate::frame::{
    law_grid_frames_stay_on_grid, law_later_pairs_win, law_selector_frame, lemma_not_shown,
    selectors, shown,
};
use crate::grid::{cell_of, right_index};
use crate::midi::MidiEvent;
use crate::pages::{held_for, xy_colors};
use crate::paps::beat::BeatModel;
use crate::paps::handle::{
    beat, button_press, control, custom_press, fader_press, flash_press, flash_release, light,
    note_off, note_on, page_switched, picker_press, rgb_press, right_press, step, xy_press,
};
use crate::paps::laws::has_grid;
use crate::paps::leds::led_message;
use crate::paps::picker::{picker_cell, picker_color};
use crate::paps::render::{
    beat_colors, custom_pad_colors, fader_colors, frame, grid_leds, is_on, palette_colors, redraw,
    right_leds, selector_colors,
};
use crate::paps::state::{
    custom_address, custom_color, find_button, initial_surface, law_find_button, next_epoch,
    surface_wf, BridgeState, Config, Overlay, PageConfig, Surface,
};
use crate::text::decimal;

verus! {

/// The message that shows a surface.
pub open spec fn drawing(config: Config, s: Surface) -> Effect {
    Effect::Midi { bytes: led_message(frame(config, s)) }
}

/// A redraw is the message of the frame, and a single light that of a frame of one LED.
pub proof fn law_redraw(config: Config, s: Surface, note: u8, color: u8)
    ensures
        redraw(config, s) matches Effect::Midi { bytes } && bytes == led_message(frame(config, s)),
        light(note, color) matches Effect::Midi { bytes } && bytes == led_message(
            seq![(note, color)],
        ),
{
}

/// The first button with a note is at this position.
pub open spec fn is_first_button(page: PageConfig, note: u8, i: int) -> bool {
    &&& 0 <= i < page.buttons@.len()
    &&& page.buttons@[i].note == note
    &&& forall|j: int| 0 <= j < i ==> (#[trigger] page.buttons@[j]).note != note
}

/// No button has this note.
pub open spec fn has_no_button(page: PageConfig, note: u8) -> bool {
    forall|j: int| 0 <= j < page.buttons@.len() ==> (#[trigger] page.buttons@[j]).note != note
}

/// The button that is found is the first one with the note.
proof fn lemma_first_button(page: PageConfig, note: u8, i: int)
    ensures
        is_first_button(page, note, i) ==> find_button(page.buttons@, note) == Some(
            page.buttons@[i],
        ),
        has_no_button(page, note) ==> find_button(page.buttons@, note) is None,
{
    law_find_button(page.buttons@, note);
    if is_first_button(page, note, i) {
        let k = choose|k: int|
            {
                &&& 0 <= k < page.buttons@.len()
                &&& #[trigger] page.buttons@[k] == find_button(page.buttons@, note)->0
                &&& page.buttons@[k].note == note
                &&& forall|j: int| 0 <= j < k ==> (#[trigger] page.buttons@[j]).note != note
            };
        if k < i {
            assert(page.buttons@[k].note != note);
        }
        if i < k {
            assert(page.buttons@[i].note != note);
        }
    }
}

/// A press on a normal or move page sends the value of the first button that lies there
/// to its address. On a flash page a press also lights the pad white, and a release sends
/// the other value and lights the pad in its colour. Where no button lies nothing happens.
pub proof fn law_button_sends(page: PageConfig, note: u8, i: int)
    ensures
        is_first_button(page, note, i) ==> {
            let button = page.buttons@[i];
            let address = button.osc_address@;
            &&& button_press(page, note) == seq![
                Effect::Osc { address, value: button.osc_value },
            ]
            &&& flash_press(page, note) == seq![
                Effect::Osc { address, value: button.osc_value },
                Effect::Midi { bytes: led_message(seq![(note, 72u8)]) },
            ]
            &&& flash_release(page, note) == seq![
                Effect::Osc { address, value: button.osc_value_off },
                Effect::Midi { bytes: led_message(seq![(note, button.color_on)]) },
            ]
        },
        has_no_button(page, note) ==> {
            &&& button_press(page, note).len() == 0
            &&& flash_press(page, note).len() == 0
            &&& flash_release(page, note).len() == 0
        },
{
    lemma_first_button(page, note, i);
}

/// A press on an RGB page turns the pad on or off, sends the value for that and lights
/// the pad for it. No other pad changes. Where no button lies nothing happens.
pub proof fn law_rgb_sends(config: Config, s: Surface, note: u8, i: int)
    ensures
        ({
            let page = config.pages@[s.current_page as int];
            let (after, list) = rgb_press(config, s, note);
            let was_on = s.rgb_states.contains_key(note) && s.rgb_states[note];
            &&& is_first_button(page, note, i) ==> {
                let button = page.buttons@[i];
                let address = button.osc_address@;
                &&& after == Surface { rgb_states: s.rgb_states.insert(note, !was_on), ..s }
                &&& list == (if was_on {
                    seq![
                        Effect::Osc { address, value: button.osc_value_off },
                        Effect::Midi { bytes: led_message(seq![(note, button.color_off)]) },
                    ]
                } else {
                    seq![
                        Effect::Osc { address, value: button.osc_value },
                        Effect::Midi { bytes: led_message(seq![(note, button.color_on)]) },
                    ]
                })
            }
            &&& has_no_button(page, note) ==> after == s && list.len() == 0
            &&& is_on(s.rgb_states, note) == was_on
        }),
{
    lemma_first_button(config.pages@[s.current_page as int], note, i);
}

/// A custom pad sends one message: that of its first button, or else 1 to an address made
/// of its number from 1 to 64, counted row by row from the bottom left, 0 beside the grid.
pub proof fn law_custom_sends(config: Config, s: Surface, note: u8, i: int)
    ensures
        ({
            let page = config.pages@[s.current_page as int];
            let list = custom_press(config, s, note);
            let number = match cell_of(note) {
                Some((col, row)) => 8 * row + col + 1,
                None => 0,
            };
            &&& list.len() == 1
            &&& is_first_button(page, note, i) ==> list[0] == (Effect::Osc {
                address: page.buttons@[i].osc_address@,
                value: page.buttons@[i].osc_value,
            })
            &&& has_no_button(page, note) ==> sends(
                list[0],
                "/qlc/custom/"@ + decimal(number as nat),
                1,
                1,
            )
        }),
{
    lemma_first_button(config.pages@[s.current_page as int], note, i);
}

/// The address and the colour of a custom pad, on any page: those of its first button,
/// where no colour was chosen, else the address made of its number and no light.
pub proof fn law_custom_pad(config: Config, s: Surface, page: usize, note: u8, i: int)
    ensures
        ({
            let p = config.pages@[page as int];
            let number = match cell_of(note) {
                Some((col, row)) => 8 * row + col + 1,
                None => 0,
            };
            &&& is_first_button(p, note, i) ==> custom_address(config, page, note)
                == p.buttons@[i].osc_address@
            &&& has_no_button(p, note) ==> custom_address(config, page, note) == "/qlc/custom/"@
                + decimal(number as nat)
            &&& s.custom_colors.contains_key((page, note)) ==> custom_color(config, s, page, note)
                == s.custom_colors[(page, note)]
            &&& !s.custom_colors.contains_key((page, note)) && is_first_button(p, note, i)
                ==> custom_color(config, s, page, note) == p.buttons@[i].color_on
            &&& !s.custom_colors.contains_key((page, note)) && has_no_button(p, note)
                ==> custom_color(config, s, page, note) == 0
        }),
{
    lemma_first_button(config.pages@[page as int], note, i);
}

/// A press on an XY page selects the cell and sends its column in sevenths from the left
/// to the pan address and its row in sevenths from the top to the tilt address. A press
/// beside the grid does nothing.
pub proof fn law_xy_sends(config: Config, s: Surface, note: u8)
    ensures
        ({
            let (after, list) = xy_press(config, s, note);
            match cell_of(note) {
                Some((col, row)) => {
                    &&& after == Surface { xy_selected: Some((col, row)), ..s }
                    &&& match config.pages@[s.current_page as int].xy_config {
                        Some(xy) => {
                            &&& list.len() == 3
                            &&& sends(list[0], xy.pan_address@, col as int, 7)
                            &&& sends(list[1], xy.tilt_address@, 7 - row, 7)
                        },
                        None => list.len() == 1,
                    }
                    &&& list.last() == drawing(config, after)
                },
                None => after == s && list.len() == 0,
            }
        }),
{
}

/// A press on a fader page sets the column to the step that was pressed, or to 0 where it
/// was there, changes no other column, and sends the new level in eighths to the address
/// of the column. A press beside the grid does nothing.
pub proof fn law_fader_sends(config: Config, s: Surface, note: u8)
    requires
        surface_wf(config, s),
    ensures
        ({
            let (after, list) = fader_press(config, s, note);
            match cell_of(note) {
                Some((col, row)) => {
                    let level: int = if s.fader_levels[col as int] == row + 1 {
                        0
                    } else {
                        row + 1
                    };
                    &&& after == Surface { fader_levels: after.fader_levels, ..s }
                    &&& after.fader_levels.len() == 8
                    &&& after.fader_levels[col as int] == level
                    &&& forall|i: int|
                        0 <= i < 8 && i != col ==> #[trigger] after.fader_levels[i]
                            == s.fader_levels[i]
                    &&& match config.pages@[s.current_page as int].fader_config {
                        Some(fader) => if col < fader.addresses@.len() {
                            list.len() == 2 && sends(
                                list[0],
                                fader.addresses@[col as int]@,
                                level,
                                8,
                            )
                        } else {
                            list.len() == 1
                        },
                        None => list.len() == 1,
                    }
                    &&& list.last() == drawing(config, after)
                },
                None => after == s && list.len() == 0,
            }
        }),
{
}

/// What the right column does. On XY pages the top button changes between coarse and fine;
/// in fine mode the next one adds 1 to the step up to 4, and the one below takes 1 off down
/// to 1. On beat pages the running chase gets a tap, the next or the previous palette.
/// Nothing else happens.
pub proof fn law_right_column(config: Config, s: Surface, note: u8, now: u64)
    ensures
        ({
            let page = config.pages@[s.current_page as int];
            let (after, list) = right_press(config, s, note, now);
            if page.xy_mode && note == 89 {
                &&& after == Surface { adjust_mode: after.adjust_mode, ..s }
                &&& after.adjust_mode is Fine <==> s.adjust_mode is Coarse
                &&& list == seq![drawing(config, after)]
            } else if page.xy_mode {
                let fine = s.adjust_mode is Fine;
                &&& list.len() == 0
                &&& after == Surface { fine_step: after.fine_step, ..s }
                &&& after.fine_step == (if fine && note == 79 && s.fine_step < 4 {
                    s.fine_step + 1
                } else if fine && note == 69 && s.fine_step > 1 {
                    s.fine_step - 1
                } else {
                    s.fine_step as int
                })
            } else if page.beat_mode {
                &&& list.len() == 0
                &&& after == Surface { beat: after.beat, ..s }
                &&& match s.beat {
                    Some(chase) => after.beat == Some(
                        if note == 59 {
                            chase.tapped(now)
                        } else if note == 49 {
                            chase.next_palette()
                        } else if note == 39 {
                            chase.previous_palette()
                        } else {
                            chase
                        },
                    ),
                    None => after.beat is None,
                }
            } else {
                after == s && list.len() == 0
            }
        }),
{
}

/// What a chase is as it starts, by the configuration: its tempo, its fixtures and its
/// palettes, at the first of each.
pub open spec fn starts_with(config: Config, page: int, chase: BeatModel) -> bool {
    config.pages@[page].beat_config matches Some(beat) && {
        &&& chase.tempo == (crate::paps::beat::TempoModel::Configured { bits: beat.default_bpm })
        &&& chase.step == 0
        &&& chase.palette_idx == 0
        &&& chase.fixture == 0
        &&& chase.taps.len() == 0
        &&& chase.addresses.len() == beat.rgb_addresses@.len()
        &&& forall|i: int|
            0 <= i < chase.addresses.len() ==> #[trigger] chase.addresses[i]
                == beat.rgb_addresses@[i]@
        &&& chase.palettes.len() == beat.palettes@.len()
        &&& forall|i: int|
            0 <= i < chase.palettes.len() ==> #[trigger] chase.palettes[i] == beat.palettes@[i]@
    }
}

/// What a button of the top row does. It closes the colour picker where that is open, or
/// else shows its page, if there is one: faders off, no cell selected, all RGB pads off, and
/// the chase ended. A beat page with a configuration starts a chase of the next epoch, and
/// its thread with it. Nothing else happens.
pub proof fn law_controls(config: Config, s: Surface, number: u8, value: u8)
    ensures
        ({
            let (after, list) = control(config, s, number, value);
            let index = number - 91;
            if value == 0 || !(91 <= number <= 98) {
                after == s && list.len() == 0
            } else if s.overlay is ColorPicker {
                &&& after == Surface { overlay: Overlay::Closed, ..s }
                &&& list == seq![drawing(config, after)]
            } else if index < config.pages@.len() {
                let page = config.pages@[index];
                let starts = page.beat_mode && page.beat_config is Some;
                &&& after == Surface {
                    current_page: index as usize,
                    fader_levels: Seq::new(8, |i: int| 0u8),
                    xy_selected: None,
                    rgb_states: Map::empty(),
                    beat: after.beat,
                    beat_epoch: after.beat_epoch,
                    ..s
                }
                &&& starts ==> {
                    &&& after.beat matches Some(chase) && starts_with(config, index, chase)
                    &&& after.beat_epoch == (if s.beat_epoch == u64::MAX {
                        0
                    } else {
                        s.beat_epoch + 1
                    })
                    &&& list == seq![
                        Effect::StartBeat { epoch: after.beat_epoch },
                        drawing(config, after),
                    ]
                }
                &&& !starts ==> {
                    &&& after.beat is None
                    &&& after.beat_epoch == s.beat_epoch
                    &&& list == seq![drawing(config, after)]
                }
                &&& (after, list) == page_switched(config, s, index as usize)
            } else {
                after == s && list.len() == 0
            }
        }),
{
}

/// A press while the colour picker is open closes it. On the grid it gives the pad that
/// the picker was opened for the colour of the pressed pad, counted from 1 at the top left
/// to the right and down.
pub proof fn law_picking(config: Config, s: Surface, note: u8)
    requires
        s.overlay is ColorPicker,
    ensures
        ({
            let (after, list) = picker_press(config, s, note);
            &&& s.overlay matches Overlay::ColorPicker { page_idx, note: target } && after
                == Surface {
                overlay: Overlay::Closed,
                custom_colors: match cell_of(note) {
                    Some((col, row)) => s.custom_colors.insert(
                        (page_idx, target),
                        (8 * (7 - row) + col + 1) as u8,
                    ),
                    None => s.custom_colors,
                },
                ..s
            }
            &&& list == seq![drawing(config, after)]
        }),
{
}

/// Which handler a press goes to: the open picker, the right column, and then the page by
/// its mode.
pub proof fn law_presses(config: Config, s: Surface, note: u8, now: u64)
    ensures
        ({
            let page = config.pages@[s.current_page as int];
            let result = note_on(config, s, note, now);
            if s.overlay is ColorPicker {
                result == picker_press(config, s, note)
            } else if 19 <= note <= 89 && note % 10 == 9 {
                result == right_press(config, s, note, now)
            } else if page.rgb_mode {
                result == rgb_press(config, s, note)
            } else if page.flash_mode {
                result == (s, flash_press(page, note))
            } else if page.move_mode {
                result == (s, button_press(page, note))
            } else if page.beat_mode {
                result.0 == s && result.1.len() == 0
            } else if page.xy_mode {
                result == xy_press(config, s, note)
            } else if page.fader_mode {
                result == fader_press(config, s, note)
            } else if page.custom_mode {
                result.0 == s && result.1.len() == 0
            } else {
                result == (s, button_press(page, note))
            }
        }),
{
}

/// What a release does after some time: a flash pad is released, and a custom pad opens the
/// colour picker after half a second and sends its message after less. Nothing else happens.
pub proof fn law_releases(config: Config, s: Surface, note: u8, elapsed: int)
    ensures
        ({
            let page = config.pages@[s.current_page as int];
            let (after, list) = note_off(config, s, note, elapsed);
            if 19 <= note <= 89 && note % 10 == 9 {
                after == s && list.len() == 0
            } else if page.flash_mode {
                after == s && list == flash_release(page, note)
            } else if page.custom_mode && elapsed >= 500_000_000 {
                &&& after == Surface {
                    overlay: Overlay::ColorPicker { page_idx: s.current_page, note },
                    ..s
                }
                &&& list == seq![drawing(config, after)]
            } else if page.custom_mode {
                after == s && list == custom_press(config, s, note)
            } else {
                after == s && list.len() == 0
            }
        }),
{
}

/// A press is noted with its time, and a release ends it; what the release does depends on
/// how long the press was.
pub proof fn law_press_times(config: Config, s: Surface, note: u8, now: u64)
    ensures
        step(config, s, MidiEvent::NoteOn { note }, now) == note_on(
            config,
            Surface { press_times: s.press_times.insert(note, now), ..s },
            note,
            now,
        ),
        step(config, s, MidiEvent::NoteOff { note }, now) == note_off(
            config,
            Surface { press_times: s.press_times.remove(note), ..s },
            note,
            held_for(s.press_times, note, now),
        ),
{
}

/// Controls go to the buttons of the top row, and messages of other kinds do nothing.
pub proof fn law_other_messages(config: Config, s: Surface, event: MidiEvent, now: u64)
    ensures
        event matches MidiEvent::Control { number, value } ==> step(config, s, event, now)
            == control(config, s, number, value),
        event is Other ==> step(config, s, event, now).0 == s && step(
            config,
            s,
            event,
            now,
        ).1.len() == 0,
{
}

/// A beat is taken from the running chase exactly where the epoch is the current one: the
/// chase goes one beat on, its messages are sent, and nothing else changes.
pub proof fn law_beat(s: Surface, epoch: u64)
    ensures
        beat(s, epoch) is Some <==> s.beat is Some && epoch == s.beat_epoch,
        beat(s, epoch) matches Some((after, list)) ==> {
            &&& after == Surface { beat: Some(s.beat->0.beaten()), ..s }
            &&& list == s.beat->0.beat_messages()
        },
{
}

/// The bridge starts on the first page, coarse with a step of 1, with everything off,
/// nothing chosen, nothing held and no chase.
pub proof fn law_start(i: int)
    requires
        0 <= i < 8,
    ensures
        ({
            let s = initial_surface();
            &&& s.current_page == 0
            &&& s.fader_levels.len() == 8 && s.fader_levels[i] == 0
            &&& s.xy_selected is None
            &&& s.adjust_mode is Coarse
            &&& s.fine_step == 1
            &&& s.rgb_states == Map::<u8, bool>::empty()
            &&& s.beat is None
            &&& s.beat_epoch == 0
            &&& s.overlay is Closed
            &&& s.custom_colors == Map::<(usize, u8), u8>::empty()
            &&& s.press_times == Map::<u8, u64>::empty()
        }),
{
}

/// The next epoch is one more, and 0 after the largest.
pub proof fn law_epochs(epoch: u64)
    ensures
        epoch < u64::MAX ==> next_epoch(epoch) == epoch + 1,
        next_epoch(u64::MAX) == 0,
{
}

/// The palette counts from 1 at the top left to the right and down.
pub proof fn law_palette(col: u8, row: u8, color: u8)
    requires
        col < 8,
        row < 8,
    ensures
        picker_color(col, row) == 8 * (7 - row) + col + 1,
        color == 0 || color > 64 ==> picker_cell(color) is None,
{
}

/// The current page's selector is white, those of other pages have their own colour, and
/// selectors without a page are dark.
pub proof fn law_selector_colors(pages: Seq<PageConfig>, current: usize, i: int)
    requires
        0 <= i < 8,
    ensures
        i >= pages.len() ==> selector_colors(pages, current)(i) == 0,
        i < pages.len() && i == current ==> selector_colors(pages, current)(i) == 72,
        i < pages.len() && i != current ==> selector_colors(pages, current)(i)
            == pages[i].selector_color,
{
}

/// A page touches its buttons, or its pads where a mode draws them, the right column and
/// the selectors, and no other LED.
pub proof fn law_rest_is_untouched(config: Config, s: Surface, number: u8)
    requires
        surface_wf(config, s),
        s.overlay is Closed,
        cell_of(number) is None || number % 10 == 0 || !has_grid(
            config.pages@[s.current_page as int],
        ),
        right_index(number) is None,
        !(91 <= number <= 98),
        has_no_button(config.pages@[s.current_page as int], number),
    ensures
        shown(frame(config, s), number) is None,
{
    let page = config.pages@[s.current_page as int];
    let colors = selector_colors(config.pages@, s.current_page);
    let right = right_leds(page, s.adjust_mode);
    let grid = grid_leds(config, s);
    law_selector_frame(colors, number);
    law_later_pairs_win(selectors(colors), right, number);
    law_later_pairs_win(selectors(colors) + right, grid, number);
    lemma_not_shown(right, number);
    if has_grid(page) {
        law_grid_frames_stay_on_grid(custom_pad_colors(config, s), number);
        law_grid_frames_stay_on_grid(beat_colors(), number);
        if let Some(xy) = page.xy_config {
            law_grid_frames_stay_on_grid(xy_colors(xy, s.xy_selected), number);
        }
        if let Some(fader) = page.fader_config {
            law_grid_frames_stay_on_grid(fader_colors(fader, s.fader_levels), number);
        }
    } else {
        assert forall|j: int| 0 <= j < grid.len() implies (#[trigger] grid[j]).0 != number by {
            assert(page.buttons@[j].note != number);
        }
        lemma_not_shown(grid, number);
    }
}

/// While a colour is chosen, only the pads are touched.
pub proof fn law_picker_surroundings(config: Config, s: Surface, number: u8)
    requires
        s.overlay is ColorPicker,
        cell_of(number) is None || number % 10 == 0,
    ensures
        shown(frame(config, s), number) is None,
{
    law_grid_frames_stay_on_grid(palette_colors(), number);
}

/// The surface holds the parts of the state as they are.
pub proof fn law_surface(state: BridgeState)
    ensures
        state@.current_page == state.current_page,
        state@.fader_levels == state.fader_levels@,
        state@.xy_selected == state.xy_selected,
        state@.adjust_mode == state.xy_adjust_mode,
        state@.fine_step == state.xy_fine_step,
        state@.rgb_states == state.rgb_states@,
        state@.beat is None <==> state.beat_state is None,
        state.beat_state matches Some(chase) ==> state@.beat == Some(chase@),
        state@.beat_epoch == state.beat_epoch,
        state@.overlay == state.overlay,
        state@.custom_colors == state.custom_colors@,
        state@.press_times == state.press_times@,
{
}

/// A bridge in order sends to the host and port of its configuration, shows one of its
/// pages, and has eight fader levels of at most eight steps.
pub proof fn law_in_order(state: BridgeState, i: int)
    requires
        state.wf(),
        0 <= i < 8,
    ensures
        state.osc_target@ == state.config.osc.host@ + seq![':'] + decimal(
            state.config.osc.port as nat,
        ),
        state.current_page < state.config.pages@.len(),
        state.page() == state.config.pages@[state.current_page as int],
        state.fader_levels@.len() == 8,
        state.fader_levels@[i] <= 8,
{
}

/// A bridge with the same setup has the same configuration and target.
pub proof fn law_same_setup(state: BridgeState, other: BridgeState)
    ensures
        state.same_setup(other) <==> state.config == other.config && state.osc_target
            == other.osc_target,
{
}

} // verus!
