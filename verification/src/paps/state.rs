//! Configuration and state.

use std::collections::HashMap;

use vstd::prelude::*;
use vstd::string::*;

use crate::actions::{one, OscValue};
use crate::colors::ColorMap;
use crate::config::{osc_target, target_text, OscConfig, XyConfig};
use crate::grid::{cell_of, grid_to_pad_index, note_to_grid, on_grid, pad_number};
use crate::pages::{faders_off, new_levels};
use crate::paps::beat::{beat_started, BeatConfig, BeatModel, BeatState};
use crate::text::{append_decimal, decimal};

verus! {

broadcast use vstd::std_specs::hash::group_hash_axioms;

/// The step of fine XY adjustment as the bridge starts.
pub const XY_STEP_FINE: u8 = 1;

/// A pad that sends OSC messages.
#[derive(Clone, Debug)]
pub struct ButtonConfig {
    pub note: u8,
    pub label: String,
    pub osc_address: String,
    /// Sent on a press.
    pub osc_value: OscValue,
    /// Sent on a release, and when an RGB pad is switched off.
    pub osc_value_off: OscValue,
    pub color_on: u8,
    pub color_off: u8,
}

/// A fader page: the four columns on the left are halogens, the others RGB lights.
#[derive(Clone, Debug)]
pub struct FaderConfig {
    pub addresses: Vec<String>,
    pub color_halogen_on: u8,
    pub color_halogen_off: u8,
    pub color_rgb_on: u8,
    pub color_rgb_off: u8,
}

/// A page.
#[derive(Clone, Debug)]
pub struct PageConfig {
    pub name: String,
    pub selector_color: u8,
    pub buttons: Vec<ButtonConfig>,
    pub rgb_mode: bool,
    pub flash_mode: bool,
    pub move_mode: bool,
    pub beat_mode: bool,
    pub xy_mode: bool,
    pub fader_mode: bool,
    pub custom_mode: bool,
    pub xy_config: Option<XyConfig>,
    pub fader_config: Option<FaderConfig>,
    pub beat_config: Option<BeatConfig>,
}

/// The configuration.
#[derive(Clone, Debug)]
pub struct Config {
    pub osc: OscConfig,
    pub pages: Vec<PageConfig>,
}

/// How XY pages are adjusted.
#[derive(Clone, Copy, Debug, PartialEq, Eq, Structural)]
pub enum XyAdjustMode {
    Coarse,
    Fine,
}

/// What covers the page.
#[derive(Clone, Copy, Debug, PartialEq, Eq, Structural)]
pub enum Overlay {
    /// Nothing.
    Closed,
    /// The choice of a colour for a pad of a custom page.
    ColorPicker { page_idx: usize, note: u8 },
}

/// The state of the bridge.
#[derive(Debug)]
pub struct BridgeState {
    pub config: Config,
    pub current_page: usize,
    /// Where OSC messages go, as `host:port`.
    pub osc_target: String,
    /// The step of each fader, 0 for off.
    pub fader_levels: Vec<u8>,
    /// The cell of an XY page that was pressed last.
    pub xy_selected: Option<(u8, u8)>,
    pub xy_adjust_mode: XyAdjustMode,
    /// The step of fine adjustment, 1 to 4 cells.
    pub xy_fine_step: u8,
    /// Which RGB pads are on.
    pub rgb_states: HashMap<u8, bool>,
    /// The chase, while one is running.
    pub beat_state: Option<BeatState>,
    /// Counts the chases that were started. A beat thread belongs to one epoch and
    /// ends with it.
    pub beat_epoch: u64,
    pub overlay: Overlay,
    /// Colours of custom pads, by page and note.
    pub custom_colors: ColorMap,
    /// When each held pad was pressed, in nanoseconds.
    pub press_times: HashMap<u8, u64>,
}

/// The part of the state that changes.
#[verifier::ext_equal]
pub struct Surface {
    pub current_page: usize,
    pub fader_levels: Seq<u8>,
    pub xy_selected: Option<(u8, u8)>,
    pub adjust_mode: XyAdjustMode,
    pub fine_step: u8,
    pub rgb_states: Map<u8, bool>,
    pub beat: Option<BeatModel>,
    pub beat_epoch: u64,
    pub overlay: Overlay,
    pub custom_colors: Map<(usize, u8), u8>,
    pub press_times: Map<u8, u64>,
}

/// The model of an optional chase.
pub open spec fn beat_view(beat: Option<BeatState>) -> Option<BeatModel> {
    match beat {
        Some(state) => Some(state@),
        None => None,
    }
}

impl View for BridgeState {
    type V = Surface;

    open spec fn view(&self) -> Surface {
        Surface {
            current_page: self.current_page,
            fader_levels: self.fader_levels@,
            xy_selected: self.xy_selected,
            adjust_mode: self.xy_adjust_mode,
            fine_step: self.xy_fine_step,
            rgb_states: self.rgb_states@,
            beat: beat_view(self.beat_state),
            beat_epoch: self.beat_epoch,
            overlay: self.overlay,
            custom_colors: self.custom_colors@,
            press_times: self.press_times@,
        }
    }
}

/// Valid surfaces: the pages that are named exist, there are eight faders of at
/// most eight steps, the selected cell is on the grid, the fine step is between 1
/// and 4, and a running chase is valid.
pub open spec fn surface_wf(config: Config, s: Surface) -> bool {
    &&& s.current_page < config.pages@.len()
    &&& s.fader_levels.len() == 8
    &&& forall|i: int| 0 <= i < 8 ==> #[trigger] s.fader_levels[i] <= 8
    &&& s.xy_selected matches Some(cell) ==> on_grid(cell.0, cell.1)
    &&& 1 <= s.fine_step <= 4
    &&& s.beat matches Some(beat) ==> beat.wf()
    &&& s.overlay matches Overlay::ColorPicker { page_idx, .. } ==> page_idx < config.pages@.len()
}

/// The surface as the bridge starts.
pub open spec fn initial_surface() -> Surface {
    Surface {
        current_page: 0,
        fader_levels: faders_off(),
        xy_selected: None,
        adjust_mode: XyAdjustMode::Coarse,
        fine_step: XY_STEP_FINE,
        rgb_states: Map::empty(),
        beat: None,
        beat_epoch: 0,
        overlay: Overlay::Closed,
        custom_colors: Map::empty(),
        press_times: Map::empty(),
    }
}

/// The first button with this note.
pub open spec fn find_button(buttons: Seq<ButtonConfig>, note: u8) -> Option<ButtonConfig>
    decreases buttons.len(),
{
    if buttons.len() == 0 {
        None
    } else if buttons[0].note == note {
        Some(buttons[0])
    } else {
        find_button(buttons.skip(1), note)
    }
}

/// The colour of a custom pad: the chosen one, else that of its button, else off.
pub open spec fn custom_color(config: Config, s: Surface, page: usize, note: u8) -> u8 {
    if s.custom_colors.contains_key((page, note)) {
        s.custom_colors[(page, note)]
    } else {
        match find_button(config.pages@[page as int].buttons@, note) {
            Some(button) => button.color_on,
            None => 0,
        }
    }
}

/// The address of a custom pad: that of its button, else one made of its number,
/// 0 for a note outside the grid.
pub open spec fn custom_address(config: Config, page: usize, note: u8) -> Seq<char> {
    match find_button(config.pages@[page as int].buttons@, note) {
        Some(button) => button.osc_address@,
        None => "/qlc/custom/"@ + decimal(
            match cell_of(note) {
                Some((col, row)) => pad_number(col, row) as nat,
                None => 0,
            },
        ),
    }
}

/// The value of a button where the configuration gives none.
pub fn default_osc_value() -> (value: OscValue)
    ensures
        value == one(),
{
    OscValue::Ratio { num: 1, den: 1 }
}

/// The colour of a button where the configuration gives none: white.
pub fn default_color_on() -> (color: u8)
    ensures
        color == 72,
{
    72
}

/// Beats per minute where the configuration gives none.
pub fn default_bpm() -> (bpm: u8)
    ensures
        bpm == 120,
{
    120
}

/// The position of the first button with this note.
pub fn button_index(buttons: &Vec<ButtonConfig>, note: u8) -> (index: Option<usize>)
    ensures
        match index {
            Some(i) => i < buttons@.len() && find_button(buttons@, note) == Some(
                buttons@[i as int],
            ),
            None => find_button(buttons@, note) is None,
        },
{
    let mut i: usize = 0;
    assert(buttons@.skip(0) =~= buttons@);
    while i < buttons.len()
        invariant
            i <= buttons@.len(),
            find_button(buttons@, note) == find_button(buttons@.skip(i as int), note),
        decreases buttons@.len() - i,
    {
        assert(buttons@.skip(i as int)[0] == buttons@[i as int]);
        if buttons[i].note == note {
            return Some(i);
        }
        assert(buttons@.skip(i as int).skip(1) =~= buttons@.skip(i + 1));
        i = i + 1;
    }
    None
}

impl BridgeState {
    /// The surface is valid, the colours are in order, and the target is that of
    /// the configuration.
    pub open spec fn wf(self) -> bool {
        &&& surface_wf(self.config, self@)
        &&& self.custom_colors.wf()
        &&& self.osc_target@ == target_text(self.config.osc.host@, self.config.osc.port)
    }

    /// The page that is shown.
    pub open spec fn page(self) -> PageConfig {
        self.config.pages@[self.current_page as int]
    }

    /// What a message never changes.
    pub open spec fn same_setup(self, other: BridgeState) -> bool {
        &&& self.config == other.config
        &&& self.osc_target == other.osc_target
    }

    /// The bridge as it starts.
    pub fn new(config: Config) -> (state: BridgeState)
        ensures
            config.pages@.len() > 0 ==> state.wf(),
            state.osc_target@ == target_text(config.osc.host@, config.osc.port),
            state.config == config,
            state@ == initial_surface(),
    {
        let target = osc_target(&config.osc);
        let rgb_states: HashMap<u8, bool> = HashMap::new();
        let press_times: HashMap<u8, u64> = HashMap::new();
        BridgeState {
            fader_levels: new_levels(),
            xy_selected: None,
            xy_adjust_mode: XyAdjustMode::Coarse,
            xy_fine_step: XY_STEP_FINE,
            rgb_states,
            beat_state: None,
            beat_epoch: 0,
            overlay: Overlay::Closed,
            custom_colors: ColorMap::new(),
            press_times,
            current_page: 0,
            osc_target: target,
            config,
        }
    }

    /// The colour of a custom pad.
    pub fn custom_button_color(&self, page_idx: usize, note: u8) -> (color: u8)
        requires
            page_idx < self.config.pages@.len(),
            self.custom_colors.wf(),
        ensures
            color == custom_color(self.config, self@, page_idx, note),
    {
        if let Some(color) = self.custom_colors.get(page_idx, note) {
            return color;
        }
        let buttons = &self.config.pages[page_idx].buttons;
        match button_index(buttons, note) {
            Some(i) => buttons[i].color_on,
            None => 0,
        }
    }

    /// The address of a custom pad.
    pub fn custom_osc_address(&self, page_idx: usize, note: u8) -> (address: String)
        requires
            page_idx < self.config.pages@.len(),
        ensures
            address@ == custom_address(self.config, page_idx, note),
    {
        let buttons = &self.config.pages[page_idx].buttons;
        match button_index(buttons, note) {
            Some(i) => buttons[i].osc_address.clone(),
            None => {
                let number: u8 = match note_to_grid(note) {
                    Some((col, row)) => grid_to_pad_index(col, row),
                    None => 0,
                };
                let mut address = String::from_str("/qlc/custom/");
                append_decimal(&mut address, number as u64);
                address
            },
        }
    }

    /// Starts a chase in a new epoch where the current page has one.
    pub fn init_beat(&mut self)
        requires
            old(self).current_page < old(self).config.pages@.len(),
        ensures
            final(self).same_setup(*old(self)),
            final(self).custom_colors == old(self).custom_colors,
            match old(self).page().beat_config {
                Some(beat) => final(self)@ == (Surface {
                    beat: Some(beat_started(beat)),
                    beat_epoch: next_epoch(old(self)@.beat_epoch),
                    ..old(self)@
                }) && beat_started(beat).wf(),
                None => *final(self) == *old(self),
            },
    {
        let page = &self.config.pages[self.current_page];
        if let Some(beat) = &page.beat_config {
            let state = BeatState::new(beat);
            self.beat_epoch = if self.beat_epoch == u64::MAX {
                0
            } else {
                self.beat_epoch + 1
            };
            self.beat_state = Some(state);
        }
    }

    /// Ends the chase, where one is running.
    pub fn stop_beat(&mut self)
        ensures
            final(self).same_setup(*old(self)),
            final(self).custom_colors == old(self).custom_colors,
            final(self)@ == (Surface { beat: None, ..old(self)@ }),
    {
        self.beat_state = None;
    }
}

/// The epoch after this one.
pub open spec fn next_epoch(epoch: u64) -> u64 {
    if epoch == u64::MAX {
        0
    } else {
        (epoch + 1) as u64
    }
}

/// A found button has the note that was looked for and is the first one with it.
pub proof fn law_find_button(buttons: Seq<ButtonConfig>, note: u8)
    ensures
        find_button(buttons, note) is None <==> forall|i: int|
            0 <= i < buttons.len() ==> (#[trigger] buttons[i]).note != note,
        find_button(buttons, note) matches Some(button) ==> exists|i: int|
            {
                &&& 0 <= i < buttons.len()
                &&& #[trigger] buttons[i] == button
                &&& button.note == note
                &&& forall|j: int| 0 <= j < i ==> (#[trigger] buttons[j]).note != note
            },
    decreases buttons.len(),
{
    if buttons.len() > 0 {
        let rest = buttons.skip(1);
        law_find_button(rest, note);
        if buttons[0].note != note {
            if find_button(rest, note) is None {
                assert forall|i: int| 0 <= i < buttons.len() implies (#[trigger] buttons[i]).note
                    != note by {
                    if i > 0 {
                        assert(rest[i - 1] == buttons[i]);
                    }
                }
            } else {
                let button = find_button(rest, note)->0;
                let k = choose|i: int|
                    {
                        &&& 0 <= i < rest.len()
                        &&& #[trigger] rest[i] == button
                        &&& button.note == note
                        &&& forall|j: int| 0 <= j < i ==> (#[trigger] rest[j]).note != note
                    };
                assert(buttons[k + 1] == button);
                assert forall|j: int| 0 <= j < k + 1 implies (#[trigger] buttons[j]).note
                    != note by {
                    if j > 0 {
                        assert(rest[j - 1] == buttons[j]);
                    }
                }
            }
        } else {
            assert(buttons[0] == find_button(buttons, note)->0);
        }
    }
}

} // verus!
