//! The plain bridge. The top row switches between pages, and each page is one
//! of three kinds:
//!
//! - normal: single pads send OSC messages,
//! - XY: the grid is a pan/tilt pad,
//! - fader: every column is a dimmer of eight steps.

use vstd::prelude::*;

use crate::actions::{
    effects, is_configured, no_actions, osc, push_midi, push_osc, sends, sends_no_osc,
    values_in_range, Action, Effect, OscValue,
};
use crate::config::{
    button_index, button_leds, find_button, law_buttons_are_shown, law_find_button, osc_target,
    push_buttons, target_text, ButtonConfig, FaderConfig, OscConfig, XyConfig,
};
use crate::frame::{
    all_off, grid_columns, grid_rows, law_all_off, law_grid_frames, law_grid_frames_stay_on_grid,
    law_later_pairs_win, law_selector_frame, push_all_off, selectors, shown,
};
use crate::grid::{
    cell_of, note_at, note_to_grid, on_grid, page_for_cc, selector_index, PAGE_SELECT_CC,
};
use crate::midi::{event_of, parse_midi, MidiEvent};
use crate::pages::{fader_colors, faders_off, new_levels, push_faders, push_xy, toggled, xy_colors};
use crate::sysex::{led_message, sysex_set_leds_bulk};
use crate::text::decimal;

verus! {

/// A page.
#[derive(Clone, Debug)]
pub struct PageConfig {
    pub name: String,
    pub selector_color: u8,
    pub buttons: Vec<ButtonConfig>,
    pub xy_mode: bool,
    pub fader_mode: bool,
    pub xy_config: Option<XyConfig>,
    pub fader_config: Option<FaderConfig>,
}

/// The configuration.
#[derive(Clone, Debug)]
pub struct Config {
    pub osc: OscConfig,
    pub pages: Vec<PageConfig>,
}

/// The state of the bridge.
#[derive(Clone, Debug)]
pub struct BridgeState {
    pub config: Config,
    pub current_page: usize,
    /// Where OSC messages go, as `host:port`.
    pub osc_target: String,
    /// For fader pages: the active step of each column (0 = off, 1 to 8 from the bottom).
    pub fader_levels: Vec<u8>,
    /// For XY pages: the cell that was pressed last.
    pub xy_selected: Option<(u8, u8)>,
}

/// The part of the state that changes.
#[verifier::ext_equal]
pub struct Surface {
    pub current_page: usize,
    pub fader_levels: Seq<u8>,
    pub xy_selected: Option<(u8, u8)>,
}

impl View for BridgeState {
    type V = Surface;

    open spec fn view(&self) -> Surface {
        Surface {
            current_page: self.current_page,
            fader_levels: self.fader_levels@,
            xy_selected: self.xy_selected,
        }
    }
}

/// The current page exists, there are eight fader levels of at most eight
/// steps, and the selected cell is on the grid.
pub open spec fn surface_wf(config: Config, s: Surface) -> bool {
    &&& s.current_page < config.pages@.len()
    &&& s.fader_levels.len() == 8
    &&& forall|i: int| 0 <= i < 8 ==> #[trigger] s.fader_levels[i] <= 8
    &&& s.xy_selected matches Some(cell) ==> on_grid(cell.0, cell.1)
}

impl BridgeState {
    /// The surface is valid and the target is that of the configuration.
    pub open spec fn wf(self) -> bool {
        &&& surface_wf(self.config, self@)
        &&& self.osc_target@ == target_text(self.config.osc.host@, self.config.osc.port)
    }

    /// The page that is shown.
    pub open spec fn page(self) -> PageConfig {
        self.config.pages@[self.current_page as int]
    }

    /// The bridge as it starts: the first page, all faders off, no cell selected.
    pub fn new(config: Config) -> (state: BridgeState)
        ensures
            config.pages@.len() > 0 ==> state.wf(),
            state.osc_target@ == target_text(config.osc.host@, config.osc.port),
            state.config == config,
            state@ == (Surface {
                current_page: 0,
                fader_levels: faders_off(),
                xy_selected: None,
            }),
    {
        let target = osc_target(&config.osc);
        BridgeState {
            fader_levels: new_levels(),
            xy_selected: None,
            current_page: 0,
            osc_target: target,
            config,
        }
    }
}

/// Selector colours: white for the current page, its own for any other page,
/// off where there is no page.
pub open spec fn selector_colors(pages: Seq<PageConfig>, current: usize) -> spec_fn(int) -> u8 {
    |i: int|
        if i < pages.len() {
            if i == current {
                72u8
            } else {
                pages[i].selector_color
            }
        } else {
            0u8
        }
}

/// The LEDs of a page below the top row.
pub open spec fn page_leds(page: PageConfig, s: Surface) -> Seq<(u8, u8)> {
    if page.xy_mode {
        match page.xy_config {
            Some(xy) => grid_rows(xy_colors(xy, s.xy_selected)),
            None => Seq::empty(),
        }
    } else if page.fader_mode {
        match page.fader_config {
            Some(fader) => grid_columns(fader_colors(fader, s.fader_levels)),
            None => Seq::empty(),
        }
    } else {
        button_leds(page.buttons@)
    }
}

/// The frame that shows the current page.
pub open spec fn page_frame(config: Config, s: Surface) -> Seq<(u8, u8)> {
    all_off() + selectors(selector_colors(config.pages@, s.current_page)) + page_leds(
        config.pages@[s.current_page as int],
        s,
    )
}

/// The effect of showing the current page.
pub open spec fn redraw(config: Config, s: Surface) -> Effect {
    Effect::Midi { bytes: led_message(page_frame(config, s)) }
}

/// Appends the selectors of the top row.
fn push_selectors(leds: &mut Vec<(u8, u8)>, state: &BridgeState)
    requires
        state.wf(),
    ensures
        final(leds)@ == old(leds)@ + selectors(
            selector_colors(state.config.pages@, state.current_page),
        ),
{
    let ghost before = leds@;
    let ghost target = selectors(selector_colors(state.config.pages@, state.current_page));
    let mut i: usize = 0;
    while i < 8
        invariant
            i <= 8,
            target == selectors(selector_colors(state.config.pages@, state.current_page)),
            leds@ == before + target.take(i as int),
        decreases 8 - i,
    {
        let color: u8 = if i < state.config.pages.len() {
            if i == state.current_page {
                72
            } else {
                state.config.pages[i].selector_color
            }
        } else {
            0
        };
        leds.push((PAGE_SELECT_CC[i], color));
        assert(target.take(i + 1) =~= target.take(i as int).push(target[i as int]));
        i = i + 1;
        assert(leds@ =~= before + target.take(i as int));
    }
    assert(target.take(8) =~= target);
}

/// The message that shows the current page.
pub fn render_page(state: &BridgeState) -> (message: Vec<u8>)
    requires
        state.wf(),
    ensures
        message@ == led_message(page_frame(state.config, state@)),
{
    let mut leds: Vec<(u8, u8)> = Vec::new();
    push_all_off(&mut leds);
    assert(leds@ =~= all_off());
    push_selectors(&mut leds, state);
    let page = &state.config.pages[state.current_page];
    let ghost before = leds@;
    if page.xy_mode {
        if let Some(xy) = &page.xy_config {
            push_xy(&mut leds, xy, state.xy_selected);
        }
    } else if page.fader_mode {
        if let Some(fader) = &page.fader_config {
            push_faders(&mut leds, fader, &state.fader_levels);
        }
    } else {
        push_buttons(&mut leds, &page.buttons);
    }
    assert(leds@ =~= before + page_leds(state.page(), state@));
    sysex_set_leds_bulk(leds.as_slice())
}

/// Pressing a pad of a normal page: the first button with that note sends its
/// message.
pub open spec fn button_press(page: PageConfig, note: u8) -> Seq<Effect> {
    match find_button(page.buttons@, note) {
        Some(button) => seq![osc(button.osc_address@, button.osc_value)],
        None => Seq::empty(),
    }
}

/// Pressing a pad of an XY page: the cell is selected, pan goes from left to
/// right and tilt from top to bottom, both in sevenths.
pub open spec fn xy_press(config: Config, s: Surface, note: u8) -> (Surface, Seq<Effect>) {
    match cell_of(note) {
        Some((col, row)) => {
            let after = Surface { xy_selected: Some((col, row)), ..s };
            let sent = match config.pages@[s.current_page as int].xy_config {
                Some(xy) => seq![
                    osc(xy.pan_address@, OscValue::Ratio { num: col, den: 7 }),
                    osc(xy.tilt_address@, OscValue::Ratio { num: (7 - row) as u8, den: 7 }),
                ],
                None => Seq::empty(),
            };
            (after, sent.push(redraw(config, after)))
        },
        None => (s, Seq::empty()),
    }
}

/// Pressing a pad of a fader page: the column's level changes and is sent in eighths.
pub open spec fn fader_press(config: Config, s: Surface, note: u8) -> (Surface, Seq<Effect>) {
    match cell_of(note) {
        Some((col, row)) => {
            let level = toggled(s.fader_levels[col as int], (row + 1) as u8);
            let after = Surface { fader_levels: s.fader_levels.update(col as int, level), ..s };
            let sent = match config.pages@[s.current_page as int].fader_config {
                Some(fader) => if col < fader.addresses@.len() {
                    seq![
                        osc(fader.addresses@[col as int]@, OscValue::Ratio { num: level, den: 8 }),
                    ]
                } else {
                    Seq::empty()
                },
                None => Seq::empty(),
            };
            (after, sent.push(redraw(config, after)))
        },
        None => (s, Seq::empty()),
    }
}

/// Switching to a page: its faders are off and no cell is selected.
pub open spec fn page_switched(index: usize) -> Surface {
    Surface { current_page: index, fader_levels: faders_off(), xy_selected: None }
}

/// What a message does.
pub open spec fn step(config: Config, s: Surface, event: MidiEvent) -> (Surface, Seq<Effect>) {
    let page = config.pages@[s.current_page as int];
    match event {
        MidiEvent::Control { number, value } => match selector_index(number) {
            Some(index) => if value > 0 && index < config.pages@.len() {
                (page_switched(index), seq![redraw(config, page_switched(index))])
            } else {
                (s, Seq::empty())
            },
            None => (s, Seq::empty()),
        },
        MidiEvent::NoteOn { note } => if page.xy_mode {
            xy_press(config, s, note)
        } else if page.fader_mode {
            fader_press(config, s, note)
        } else {
            (s, button_press(page, note))
        },
        _ => (s, Seq::empty()),
    }
}

/// A pad of a normal page was pressed.
pub fn handle_button(note: u8, state: &BridgeState) -> (actions: Vec<Action>)
    requires
        state.current_page < state.config.pages@.len(),
    ensures
        effects(actions@) == button_press(state.page(), note),
{
    let page = &state.config.pages[state.current_page];
    let mut actions = no_actions();
    if let Some(i) = button_index(&page.buttons, note) {
        let button = &page.buttons[i];
        push_osc(&mut actions, &button.osc_address, button.osc_value);
    }
    assert(effects(actions@) =~= button_press(state.page(), note));
    actions
}

/// A pad of an XY page was pressed.
pub fn handle_xy(note: u8, state: &mut BridgeState) -> (actions: Vec<Action>)
    requires
        old(state).wf(),
    ensures
        final(state).wf(),
        final(state).config == old(state).config,
        (final(state)@, effects(actions@)) == xy_press(old(state).config, old(state)@, note),
{
    let mut actions = no_actions();
    if let Some((col, row)) = note_to_grid(note) {
        state.xy_selected = Some((col, row));
        let page = &state.config.pages[state.current_page];
        if let Some(xy) = &page.xy_config {
            push_osc(&mut actions, &xy.pan_address, OscValue::Ratio { num: col, den: 7 });
            push_osc(&mut actions, &xy.tilt_address, OscValue::Ratio { num: 7 - row, den: 7 });
        }
        push_midi(&mut actions, render_page(state));
    }
    assert(effects(actions@) =~= xy_press(old(state).config, old(state)@, note).1);
    actions
}

/// A pad of a fader page was pressed.
pub fn handle_fader(note: u8, state: &mut BridgeState) -> (actions: Vec<Action>)
    requires
        old(state).wf(),
    ensures
        final(state).wf(),
        final(state).config == old(state).config,
        (final(state)@, effects(actions@)) == fader_press(old(state).config, old(state)@, note),
{
    let mut actions = no_actions();
    if let Some((col, row)) = note_to_grid(note) {
        let step: u8 = row + 1;
        let current: u8 = state.fader_levels[col as usize];
        let level: u8 = if current == step {
            0
        } else {
            step
        };
        state.fader_levels.set(col as usize, level);
        let page = &state.config.pages[state.current_page];
        if let Some(fader) = &page.fader_config {
            if (col as usize) < fader.addresses.len() {
                push_osc(
                    &mut actions,
                    &fader.addresses[col as usize],
                    OscValue::Ratio { num: level, den: 8 },
                );
            }
        }
        push_midi(&mut actions, render_page(state));
    }
    assert(effects(actions@) =~= fader_press(old(state).config, old(state)@, note).1);
    actions
}

/// A MIDI message came in.
pub fn handle_midi(message: &[u8], state: &mut BridgeState) -> (actions: Vec<Action>)
    requires
        old(state).wf(),
    ensures
        final(state).wf(),
        final(state).config == old(state).config,
        (final(state)@, effects(actions@)) == step(
            old(state).config,
            old(state)@,
            event_of(message@),
        ),
{
    match parse_midi(message) {
        MidiEvent::Control { number, value } => {
            let mut actions = no_actions();
            if value > 0 {
                if let Some(index) = page_for_cc(number) {
                    if index < state.config.pages.len() {
                        state.current_page = index;
                        state.fader_levels = new_levels();
                        state.xy_selected = None;
                        push_midi(&mut actions, render_page(state));
                        assert(effects(actions@) =~= seq![redraw(state.config, state@)]);
                    }
                }
            }
            actions
        },
        MidiEvent::NoteOn { note } => {
            let page = &state.config.pages[state.current_page];
            if page.xy_mode {
                handle_xy(note, state)
            } else if page.fader_mode {
                handle_fader(note, state)
            } else {
                handle_button(note, state)
            }
        },
        _ => no_actions(),
    }
}

/// Showing a page sets every LED, so that nothing is left of what was shown before.
pub proof fn law_page_sets_every_led(config: Config, s: Surface, number: u8)
    requires
        surface_wf(config, s),
        number < 100,
    ensures
        shown(page_frame(config, s), number) is Some,
{
    let page = config.pages@[s.current_page as int];
    let top = selectors(selector_colors(config.pages@, s.current_page));
    law_all_off(number);
    law_later_pairs_win(all_off(), top, number);
    law_later_pairs_win(all_off() + top, page_leds(page, s), number);
}

/// On an XY page every pad shows whether it is the selected cell, and every
/// page selector its colour.
pub proof fn law_xy_page_is_shown(config: Config, s: Surface, col: u8, row: u8, index: usize)
    requires
        surface_wf(config, s),
        config.pages@[s.current_page as int].xy_mode,
        on_grid(col, row),
        index < 8,
    ensures
        config.pages@[s.current_page as int].xy_config matches Some(xy) ==> shown(
            page_frame(config, s),
            note_at(col, row),
        ) == Some(
            if s.xy_selected == Some((col, row)) {
                xy.color_active
            } else {
                xy.color_inactive
            },
        ),
        shown(page_frame(config, s), (91 + index) as u8) == Some(
            selector_colors(config.pages@, s.current_page)(index as int),
        ),
{
    let page = config.pages@[s.current_page as int];
    lemma_layers(config, s, note_at(col, row));
    lemma_layers(config, s, (91 + index) as u8);
    if let Some(xy) = page.xy_config {
        law_grid_frames(xy_colors(xy, s.xy_selected), col, row);
        law_grid_frames_stay_on_grid(xy_colors(xy, s.xy_selected), (91 + index) as u8);
    }
}

/// On a fader page every column is lit up to its level, and every page selector
/// shows its colour.
pub proof fn law_fader_page_is_shown(config: Config, s: Surface, col: u8, row: u8, index: usize)
    requires
        surface_wf(config, s),
        !config.pages@[s.current_page as int].xy_mode,
        config.pages@[s.current_page as int].fader_mode,
        on_grid(col, row),
        index < 8,
    ensures
        config.pages@[s.current_page as int].fader_config matches Some(fader) ==> shown(
            page_frame(config, s),
            note_at(col, row),
        ) == Some(
            if row < s.fader_levels[col as int] {
                fader.color_on
            } else {
                fader.color_off
            },
        ),
        shown(page_frame(config, s), (91 + index) as u8) == Some(
            selector_colors(config.pages@, s.current_page)(index as int),
        ),
{
    let page = config.pages@[s.current_page as int];
    lemma_layers(config, s, note_at(col, row));
    lemma_layers(config, s, (91 + index) as u8);
    if let Some(fader) = page.fader_config {
        law_grid_frames(fader_colors(fader, s.fader_levels), col, row);
        law_grid_frames_stay_on_grid(fader_colors(fader, s.fader_levels), (91 + index) as u8);
    }
}

/// On a normal page every button has its colour, of several buttons on one pad the
/// last one. Everything else is dark but for the page selectors.
pub proof fn law_button_page_is_shown(config: Config, s: Surface, number: u8)
    requires
        surface_wf(config, s),
        !config.pages@[s.current_page as int].xy_mode,
        !config.pages@[s.current_page as int].fader_mode,
        number < 100,
    ensures
        ({
            let buttons = config.pages@[s.current_page as int].buttons@;
            &&& forall|b: int|
                0 <= b < buttons.len() && (#[trigger] buttons[b]).note == number && (forall|
                    later: int,
                |
                    b < later < buttons.len() ==> (#[trigger] buttons[later]).note != number)
                    ==> shown(page_frame(config, s), number) == Some(buttons[b].color)
            &&& (forall|b: int| 0 <= b < buttons.len() ==> (#[trigger] buttons[b]).note != number)
                ==> shown(page_frame(config, s), number) == Some(
                if 91 <= number <= 98 {
                    selector_colors(config.pages@, s.current_page)(number - 91)
                } else {
                    0u8
                },
            )
        }),
{
    lemma_layers(config, s, number);
    law_buttons_are_shown(config.pages@[s.current_page as int].buttons@, number);
}

/// What an LED shows: the page's own LEDs over the selectors over darkness.
proof fn lemma_layers(config: Config, s: Surface, number: u8)
    requires
        surface_wf(config, s),
        number < 100,
    ensures
        ({
            let page = config.pages@[s.current_page as int];
            shown(page_frame(config, s), number) == (match shown(page_leds(page, s), number) {
                Some(color) => Some(color),
                None => Some(
                    if 91 <= number <= 98 {
                        selector_colors(config.pages@, s.current_page)(number - 91)
                    } else {
                        0u8
                    },
                ),
            })
        }),
{
    let page = config.pages@[s.current_page as int];
    let colors = selector_colors(config.pages@, s.current_page);
    law_all_off(number);
    law_selector_frame(colors, number);
    law_later_pairs_win(all_off(), selectors(colors), number);
    law_later_pairs_win(all_off() + selectors(colors), page_leds(page, s), number);
}

/// Every message keeps the state valid.
pub proof fn law_step_keeps_wf(config: Config, s: Surface, event: MidiEvent)
    requires
        surface_wf(config, s),
    ensures
        surface_wf(config, step(config, s, event).0),
{
}

/// Pressing the same fader pad twice leaves the fader off, or at that step
/// again where it was there before.
pub proof fn law_fader_pad_twice(config: Config, s: Surface, col: u8, row: u8)
    requires
        surface_wf(config, s),
        on_grid(col, row),
    ensures
        ({
            let note = note_at(col, row);
            let once = fader_press(config, s, note).0;
            let twice = fader_press(config, once, note).0;
            twice == Surface {
                fader_levels: s.fader_levels.update(
                    col as int,
                    if s.fader_levels[col as int] == row + 1 {
                        (row + 1) as u8
                    } else {
                        0u8
                    },
                ),
                ..s
            }
        }),
{
    let note = note_at(col, row);
    let once = fader_press(config, s, note).0;
    let twice = fader_press(config, once, note).0;
    assert(twice.fader_levels =~= s.fader_levels.update(
        col as int,
        if s.fader_levels[col as int] == row + 1 {
            (row + 1) as u8
        } else {
            0u8
        },
    ));
}

/// Pressing a page selector gives the same surface and the same frame whatever
/// was shown before.
pub proof fn law_page_switch_forgets(
    config: Config,
    s1: Surface,
    s2: Surface,
    number: u8,
    value: u8,
)
    requires
        selector_index(number) matches Some(index) && index < config.pages@.len(),
        value > 0,
    ensures
        step(config, s1, (MidiEvent::Control { number, value })) == step(
            config,
            s2,
            (MidiEvent::Control { number, value }),
        ),
        sends_no_osc(step(config, s1, (MidiEvent::Control { number, value })).1),
{
}

/// The buttons' values come from the configuration file.
pub open spec fn values_are_configured(config: Config) -> bool {
    forall|p: int, b: int|
        0 <= p < config.pages@.len() && 0 <= b < config.pages@[p].buttons@.len() ==> is_configured(
            (#[trigger] config.pages@[p].buttons@[b]).osc_value,
        )
}

/// Every OSC value is between 0 and 1, unless the configuration gives it.
pub proof fn law_values_in_range(config: Config, s: Surface, event: MidiEvent)
    requires
        surface_wf(config, s),
        values_are_configured(config),
    ensures
        values_in_range(step(config, s, event).1),
{
    if let MidiEvent::NoteOn { note } = event {
        let page = config.pages@[s.current_page as int];
        law_find_button(page.buttons@, note);
        if let Some((col, row)) = cell_of(note) {
            assert(s.fader_levels[col as int] <= 8);
        }
    }
}

/// The current page's selector is white, those of other pages have their own colour, and
/// selectors without a page are dark.
pub proof fn law_selector_colors(pages: Seq<PageConfig>, current: usize, i: int)
    requires
        0 <= i < 8,
    ensures
        i >= pages.len() ==> selector_colors(pages, current)(i) == 0,
        i < pages.len() && i == current ==> selector_colors(pages, current)(i) == 72,
        i < pages.len() && i != current ==> selector_colors(pages, current)(i)
            == pages[i].selector_color,
{
}

/// On XY and fader pages every LED is accounted for: pads of a page without addresses,
/// the right column and all numbers beside it are dark, and nothing above 99 is touched.
pub proof fn law_rest_is_dark(config: Config, s: Surface, number: u8)
    requires
        surface_wf(config, s),
        config.pages@[s.current_page as int].xy_mode || config.pages@[s.current_page as int].fader_mode,
        !(91 <= number <= 98),
        cell_of(number) is None || number % 10 == 0 || (config.pages@[s.current_page as int].xy_mode
            && config.pages@[s.current_page as int].xy_config is None) || (
        !config.pages@[s.current_page as int].xy_mode
            && config.pages@[s.current_page as int].fader_config is None),
    ensures
        shown(page_frame(config, s), number) == (if number < 100 {
            Some(0u8)
        } else {
            None
        }),
{
    let page = config.pages@[s.current_page as int];
    let top = selectors(selector_colors(config.pages@, s.current_page));
    law_all_off(number);
    law_selector_frame(selector_colors(config.pages@, s.current_page), number);
    law_later_pairs_win(all_off(), top, number);
    law_later_pairs_win(all_off() + top, page_leds(page, s), number);
    if cell_of(number) is None || number % 10 == 0 {
        if let Some(xy) = page.xy_config {
            law_grid_frames_stay_on_grid(xy_colors(xy, s.xy_selected), number);
        }
        if let Some(fader) = page.fader_config {
            law_grid_frames_stay_on_grid(fader_colors(fader, s.fader_levels), number);
        }
    }
}

/// A press on a normal page sends the value of the first button that lies there to the
/// address of that button, and nothing else; where none lies there it sends nothing.
pub proof fn law_button_sends(page: PageConfig, note: u8, i: int)
    requires
        0 <= i < page.buttons@.len(),
    ensures
        page.buttons@[i].note == note && (forall|j: int|
            0 <= j < i ==> (#[trigger] page.buttons@[j]).note != note) ==> button_press(page, note)
            == seq![
            Effect::Osc {
                address: page.buttons@[i].osc_address@,
                value: page.buttons@[i].osc_value,
            },
        ],
        (forall|j: int| 0 <= j < page.buttons@.len() ==> (#[trigger] page.buttons@[j]).note != note)
            ==> button_press(page, note).len() == 0,
{
    law_find_button(page.buttons@, note);
    if page.buttons@[i].note == note && (forall|j: int|
        0 <= j < i ==> (#[trigger] page.buttons@[j]).note != note) {
        let k = choose|k: int|
            {
                &&& 0 <= k < page.buttons@.len()
                &&& #[trigger] page.buttons@[k] == find_button(page.buttons@, note)->0
                &&& page.buttons@[k].note == note
                &&& forall|j: int| 0 <= j < k ==> (#[trigger] page.buttons@[j]).note != note
            };
        if k < i {
            assert(page.buttons@[k].note != note);
        }
        if i < k {
            assert(page.buttons@[i].note != note);
        }
    }
}

/// A press on an XY page selects the cell and sends its column in sevenths from the left
/// to the pan address and its row in sevenths from the top to the tilt address. So pan is
/// 0 at the left and 1 at the right, tilt 0 at the top and 1 at the bottom. A press
/// beside the grid does nothing.
pub proof fn law_xy_sends(config: Config, s: Surface, note: u8)
    ensures
        ({
            let (after, list) = xy_press(config, s, note);
            match cell_of(note) {
                Some((col, row)) => {
                    &&& after == Surface { xy_selected: Some((col, row)), ..s }
                    &&& match config.pages@[s.current_page as int].xy_config {
                        Some(xy) => {
                            &&& list.len() == 3
                            &&& sends(list[0], xy.pan_address@, col as int, 7)
                            &&& sends(list[1], xy.tilt_address@, 7 - row, 7)
                        },
                        None => list.len() == 1,
                    }
                    &&& list.last() == (Effect::Midi {
                        bytes: led_message(page_frame(config, after)),
                    })
                },
                None => after == s && list.len() == 0,
            }
        }),
{
}

/// A press on a fader page sets the column to the step that was pressed, or to 0 where it
/// was there, changes no other column, and sends the new level in eighths to the address
/// of the column. A press beside the grid does nothing.
pub proof fn law_fader_sends(config: Config, s: Surface, note: u8)
    requires
        surface_wf(config, s),
    ensures
        ({
            let (after, list) = fader_press(config, s, note);
            match cell_of(note) {
                Some((col, row)) => {
                    let level: int = if s.fader_levels[col as int] == row + 1 {
                        0
                    } else {
                        row + 1
                    };
                    &&& after == Surface { fader_levels: after.fader_levels, ..s }
                    &&& after.fader_levels.len() == 8
                    &&& after.fader_levels[col as int] == level
                    &&& forall|i: int|
                        0 <= i < 8 && i != col ==> #[trigger] after.fader_levels[i]
                            == s.fader_levels[i]
                    &&& match config.pages@[s.current_page as int].fader_config {
                        Some(fader) => if col < fader.addresses@.len() {
                            list.len() == 2 && sends(
                                list[0],
                                fader.addresses@[col as int]@,
                                level,
                                8,
                            )
                        } else {
                            list.len() == 1
                        },
                        None => list.len() == 1,
                    }
                    &&& list.last() == (Effect::Midi {
                        bytes: led_message(page_frame(config, after)),
                    })
                },
                None => after == s && list.len() == 0,
            }
        }),
{
}

/// What becomes of a message: a press goes to the XY, fader or normal page that is shown,
/// a pressed page selector shows its page with all faders off and no cell selected, and
/// everything else does nothing.
pub proof fn law_messages(config: Config, s: Surface, event: MidiEvent)
    ensures
        match event {
            MidiEvent::NoteOn { note } => {
                let page = config.pages@[s.current_page as int];
                &&& page.xy_mode ==> step(config, s, event) == xy_press(config, s, note)
                &&& !page.xy_mode && page.fader_mode ==> step(config, s, event) == fader_press(
                    config,
                    s,
                    note,
                )
                &&& !page.xy_mode && !page.fader_mode ==> step(config, s, event) == (
                    s,
                    button_press(page, note),
                )
            },
            MidiEvent::Control { number, value } => {
                let (after, list) = step(config, s, event);
                if value > 0 && 91 <= number <= 98 && number - 91 < config.pages@.len() {
                    &&& after.current_page == number - 91
                    &&& after.fader_levels == Seq::new(8, |i: int| 0u8)
                    &&& after.xy_selected is None
                    &&& list == seq![
                        Effect::Midi { bytes: led_message(page_frame(config, after)) },
                    ]
                } else {
                    after == s && list.len() == 0
                }
            },
            _ => step(config, s, event).0 == s && step(config, s, event).1.len() == 0,
        },
{
}

/// The surface holds the parts of the state as they are.
pub proof fn law_surface(state: BridgeState)
    ensures
        state@.current_page == state.current_page,
        state@.fader_levels == state.fader_levels@,
        state@.xy_selected == state.xy_selected,
{
}

/// A bridge in order sends to the host and port of its configuration, shows one of its
/// pages, and has eight fader levels of at most eight steps.
pub proof fn law_in_order(state: BridgeState, i: int)
    requires
        state.wf(),
        0 <= i < 8,
    ensures
        state.osc_target@ == state.config.osc.host@ + seq![':'] + decimal(
            state.config.osc.port as nat,
        ),
        state.current_page < state.config.pages@.len(),
        state.page() == state.config.pages@[state.current_page as int],
        state.fader_levels@.len() == 8,
        state.fader_levels@[i] <= 8,
{
}

} // verus!
