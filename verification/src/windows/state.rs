//! Configuration and state.

use std::collections::HashMap;

use vstd::prelude::*;
use vstd::string::*;

use crate::colors::{colors_from_json, parsed_colors, reads_as, ColorMap};
use crate::config::{
    button_index, find_button, osc_target, target_text, ButtonConfig, FaderConfig, OscConfig,
    XyConfig,
};
use crate::grid::{cell_of, grid_to_pad_index, note_to_grid, on_grid, pad_number};
use crate::pages::{faders_off, new_levels};
use crate::position::{is_single, ONE};
use crate::text::{append_decimal, decimal};
use crate::windows::rgbw::{rgbw_default, RgbwConfig, RgbwModel, RgbwState, RGBW_NUM_PROFILES};

verus! {

broadcast use vstd::std_specs::hash::group_hash_axioms;

/// A page.
#[derive(Clone, Debug)]
pub struct PageConfig {
    pub name: String,
    pub selector_color: u8,
    pub buttons: Vec<ButtonConfig>,
    pub xy_mode: bool,
    pub fader_mode: bool,
    pub custom_mode: bool,
    pub rgbw_mode: bool,
    /// The grid nudges pan and tilt; the addresses are those of `xy_config`.
    pub nudge_xy_mode: bool,
    /// The bottom row flashes the faders that the rows above set; addresses and
    /// colours are those of `fader_config`.
    pub flash_fader_mode: bool,
    pub xy_config: Option<XyConfig>,
    pub fader_config: Option<FaderConfig>,
    pub rgbw_config: Option<RgbwConfig>,
}

/// The configuration.
#[derive(Clone, Debug)]
pub struct Config {
    pub osc: OscConfig,
    pub pages: Vec<PageConfig>,
}

/// What covers the page.
#[derive(Clone, Copy, Debug, PartialEq, Eq, Structural)]
pub enum Overlay {
    /// Nothing.
    Closed,
    /// The choice of a colour for a pad of a custom page.
    ColorPicker { page_idx: usize, note: u8 },
    /// The choice of a colour for a fader of a flash page.
    FlashFaderColorPicker { page_idx: usize, col: u8 },
}

/// The state of the bridge.
#[derive(Debug)]
pub struct BridgeState {
    pub config: Config,
    pub current_page: usize,
    /// Where OSC messages go, as `host:port`.
    pub osc_target: String,
    /// The step of each fader, 0 for off.
    pub fader_levels: Vec<u8>,
    /// The cell of an XY page that was pressed last.
    pub xy_selected: Option<(u8, u8)>,
    pub overlay: Overlay,
    /// Colours of custom pads, by page and note.
    pub custom_colors: ColorMap,
    /// Colours of faders, by page and column.
    pub fader_colors: ColorMap,
    /// When each held pad was pressed, in nanoseconds.
    pub press_times: HashMap<u8, u64>,
    /// Where the colours of the custom pages are kept.
    pub colors_path: String,
    /// RGBW profiles by page.
    pub rgbw_states: HashMap<usize, RgbwState>,
    /// Where the RGBW profiles are kept.
    pub rgbw_path: String,
    /// Whether the next press opens the colour picker.
    pub color_picker_modifier_active: bool,
    /// Which flash buttons are held, by column.
    pub flash_buttons_pressed: Vec<bool>,
    /// The pan position that nudges start from, by page and in units of position; the
    /// centre where none was set yet.
    pub nudge_pan: HashMap<usize, u32>,
    /// The tilt position that nudges start from, by page.
    pub nudge_tilt: HashMap<usize, u32>,
}

/// The part of the state that changes.
#[verifier::ext_equal]
pub struct Surface {
    pub current_page: usize,
    pub fader_levels: Seq<u8>,
    pub xy_selected: Option<(u8, u8)>,
    pub overlay: Overlay,
    pub custom_colors: Map<(usize, u8), u8>,
    pub fader_colors: Map<(usize, u8), u8>,
    pub press_times: Map<u8, u64>,
    pub rgbw: Map<usize, RgbwModel>,
    pub modifier: bool,
    pub flash_pressed: Seq<bool>,
    pub nudge_pan: Map<usize, u32>,
    pub nudge_tilt: Map<usize, u32>,
}

/// The models of the RGBW pages.
pub open spec fn rgbw_view(states: Map<usize, RgbwState>) -> Map<usize, RgbwModel> {
    states.map_values(|state: RgbwState| state@)
}

impl View for BridgeState {
    type V = Surface;

    open spec fn view(&self) -> Surface {
        Surface {
            current_page: self.current_page,
            fader_levels: self.fader_levels@,
            xy_selected: self.xy_selected,
            overlay: self.overlay,
            custom_colors: self.custom_colors@,
            fader_colors: self.fader_colors@,
            press_times: self.press_times@,
            rgbw: rgbw_view(self.rgbw_states@),
            modifier: self.color_picker_modifier_active,
            flash_pressed: self.flash_buttons_pressed@,
            nudge_pan: self.nudge_pan@,
            nudge_tilt: self.nudge_tilt@,
        }
    }
}

/// Whether pressing a pad of this page goes to its flash faders.
pub open spec fn is_flash_page(page: PageConfig) -> bool {
    &&& page.flash_fader_mode
    &&& !page.rgbw_mode
    &&& !page.nudge_xy_mode
    &&& !page.xy_mode
    &&& !page.fader_mode
}

/// Positions that were set lie between 0 and 1 and are single precision numbers.
pub open spec fn positions_wf(positions: Map<usize, u32>) -> bool {
    forall|page: usize| #[trigger]
        positions.contains_key(page) ==> positions[page] <= ONE && is_single(
            positions[page] as int,
        )
}

/// Whether this is an RGBW page.
pub open spec fn is_rgbw_page(pages: Seq<PageConfig>, page: usize) -> bool {
    page < pages.len() && pages[page as int].rgbw_mode
}

/// Whether a page can be drawn: of the profiles of an RGBW page one is shown. Profiles
/// that were saved need not name one that exists.
pub open spec fn can_show(
    pages: Seq<PageConfig>,
    rgbw: Map<usize, RgbwModel>,
    page: usize,
) -> bool {
    is_rgbw_page(pages, page) ==> rgbw_at(rgbw, page).wf()
}

/// Valid but for the RGBW profiles: the pages that are named exist, there are eight
/// faders of at most eight steps, cells are on the grid, and positions lie between 0
/// and 1.
pub open spec fn pages_wf(config: Config, s: Surface) -> bool {
    &&& s.current_page < config.pages@.len()
    &&& s.fader_levels.len() == 8
    &&& forall|i: int| 0 <= i < 8 ==> #[trigger] s.fader_levels[i] <= 8
    &&& s.xy_selected matches Some(cell) ==> on_grid(cell.0, cell.1)
    &&& match s.overlay {
        Overlay::Closed => true,
        Overlay::ColorPicker { page_idx, .. } => page_idx < config.pages@.len(),
        Overlay::FlashFaderColorPicker { page_idx, col } => page_idx < config.pages@.len() && col
            < 8,
    }
    &&& s.flash_pressed.len() == 8
    &&& positions_wf(s.nudge_pan)
    &&& positions_wf(s.nudge_tilt)
}

/// Valid surfaces: where the current page is an RGBW page, it has profiles, and one of
/// them is shown.
pub open spec fn surface_wf(config: Config, s: Surface) -> bool {
    &&& pages_wf(config, s)
    &&& is_rgbw_page(config.pages@, s.current_page) ==> s.rgbw.contains_key(s.current_page)
        && s.rgbw[s.current_page].wf()
}

/// The faders of a flash page have at most seven steps.
pub open spec fn flash_levels_wf(config: Config, s: Surface) -> bool {
    is_flash_page(config.pages@[s.current_page as int]) ==> forall|i: int|
        0 <= i < 8 ==> #[trigger] s.fader_levels[i] <= 7
}

/// The profiles of a page; those of a new page where it has none.
pub open spec fn rgbw_at(rgbw: Map<usize, RgbwModel>, page: usize) -> RgbwModel {
    if rgbw.contains_key(page) {
        rgbw[page]
    } else {
        rgbw_default()
    }
}

/// The profiles that were loaded, and new ones for the RGBW pages without.
pub open spec fn rgbw_for_pages(
    pages: Seq<PageConfig>,
    loaded: Map<usize, RgbwModel>,
) -> Map<usize, RgbwModel> {
    Map::new(
        |page: usize|
            loaded.contains_key(page) || is_rgbw_page(pages, page),
        |page: usize| rgbw_at(loaded, page),
    )
}

/// The surface as the bridge starts with these colours and profiles.
pub open spec fn initial_surface(
    custom_colors: Map<(usize, u8), u8>,
    fader_colors: Map<(usize, u8), u8>,
    rgbw: Map<usize, RgbwModel>,
) -> Surface {
    Surface {
        current_page: 0,
        fader_levels: faders_off(),
        xy_selected: None,
        overlay: Overlay::Closed,
        custom_colors,
        fader_colors,
        press_times: Map::empty(),
        rgbw,
        modifier: false,
        flash_pressed: Seq::new(8, |i: int| false),
        nudge_pan: Map::empty(),
        nudge_tilt: Map::empty(),
    }
}

/// `colors` is what the text of a colours file holds; nothing where there is no
/// file or it cannot be read.
pub open spec fn loaded_colors(text: Option<Seq<char>>, colors: Map<(usize, u8), u8>) -> bool {
    match text {
        Some(t) => match parsed_colors(t) {
            Some(file) => reads_as(file, colors),
            None => colors == Map::<(usize, u8), u8>::empty(),
        },
        None => colors == Map::<(usize, u8), u8>::empty(),
    }
}

/// The text of an optional file.
pub open spec fn text_view(text: Option<String>) -> Option<Seq<char>> {
    match text {
        Some(t) => Some(t@),
        None => None,
    }
}

/// The colour of a fader: the chosen one, else that of the configuration, else white.
pub open spec fn fader_color(config: Config, s: Surface, page: usize, col: u8) -> u8 {
    if s.fader_colors.contains_key((page, col)) {
        s.fader_colors[(page, col)]
    } else {
        match config.pages@[page as int].fader_config {
            Some(fader) => fader.color_on,
            None => 72,
        }
    }
}

/// The colour of a custom pad: the chosen one, else that of its button, else green.
pub open spec fn custom_color(config: Config, s: Surface, page: usize, note: u8) -> u8 {
    if s.custom_colors.contains_key((page, note)) {
        s.custom_colors[(page, note)]
    } else {
        match find_button(config.pages@[page as int].buttons@, note) {
            Some(button) => button.color,
            None => 21,
        }
    }
}

/// The address of a custom pad: that of its button, else one made of its number.
pub open spec fn custom_address(config: Config, page: usize, note: u8) -> Seq<char> {
    match find_button(config.pages@[page as int].buttons@, note) {
        Some(button) => button.osc_address@,
        None => match cell_of(note) {
            Some((col, row)) => "/lp/c"@ + decimal(pad_number(col, row) as nat),
            None => "/lp/custom/unknown"@,
        },
    }
}

impl BridgeState {
    /// The colour maps are in order, and the target is that of the configuration.
    pub open spec fn setup_wf(self) -> bool {
        &&& self.custom_colors.wf()
        &&& self.fader_colors.wf()
        &&& self.osc_target@ == target_text(self.config.osc.host@, self.config.osc.port)
    }

    /// The setup is in order and the surface is valid.
    pub open spec fn wf(self) -> bool {
        self.setup_wf() && surface_wf(self.config, self@)
    }

    /// The page that is shown.
    pub open spec fn page(self) -> PageConfig {
        self.config.pages@[self.current_page as int]
    }

    /// What a message never changes.
    pub open spec fn same_setup(self, other: BridgeState) -> bool {
        &&& self.config == other.config
        &&& self.osc_target == other.osc_target
        &&& self.colors_path == other.colors_path
        &&& self.rgbw_path == other.rgbw_path
    }

    /// The bridge as it starts. The texts are those of the colours files, where
    /// they could be read; the profiles are those that were saved, and stay as they are.
    pub fn new(
        config: Config,
        colors_path: String,
        rgbw_path: String,
        colors_text: Option<String>,
        fader_colors_text: Option<String>,
        rgbw_states: HashMap<usize, RgbwState>,
    ) -> (state: BridgeState)
        ensures
            state.setup_wf(),
            state.config == config,
            state.colors_path == colors_path,
            state.rgbw_path == rgbw_path,
            loaded_colors(text_view(colors_text), state@.custom_colors),
            loaded_colors(text_view(fader_colors_text), state@.fader_colors),
            state@ == initial_surface(
                state@.custom_colors,
                state@.fader_colors,
                rgbw_view(rgbw_states@),
            ),
    {
        let custom_colors = load_colors(colors_text);
        let fader_colors = load_colors(fader_colors_text);
        BridgeState::with_colors(
            config,
            colors_path,
            rgbw_path,
            custom_colors,
            fader_colors,
            rgbw_states,
        )
    }

    /// The bridge as it starts with these colours and profiles.
    pub fn with_colors(
        config: Config,
        colors_path: String,
        rgbw_path: String,
        custom_colors: ColorMap,
        fader_colors: ColorMap,
        rgbw_states: HashMap<usize, RgbwState>,
    ) -> (state: BridgeState)
        requires
            custom_colors.wf(),
            fader_colors.wf(),
        ensures
            state.setup_wf(),
            state.config == config,
            state.colors_path == colors_path,
            state.rgbw_path == rgbw_path,
            state@ == initial_surface(custom_colors@, fader_colors@, rgbw_view(rgbw_states@)),
    {
        let target = osc_target(&config.osc);
        let pressed: Vec<bool> = vec![false; 8];
        assert(pressed@ =~= Seq::new(8, |i: int| false));
        let press_times: HashMap<u8, u64> = HashMap::new();
        let nudge_pan: HashMap<usize, u32> = HashMap::new();
        let nudge_tilt: HashMap<usize, u32> = HashMap::new();
        BridgeState {
            fader_levels: new_levels(),
            xy_selected: None,
            overlay: Overlay::Closed,
            custom_colors,
            fader_colors,
            press_times,
            current_page: 0,
            osc_target: target,
            colors_path,
            rgbw_states,
            rgbw_path,
            color_picker_modifier_active: false,
            flash_buttons_pressed: pressed,
            nudge_pan,
            nudge_tilt,
            config,
        }
    }

    /// Gives new profiles to every RGBW page that has none. After that the state is
    /// valid, where there is a page and the current one can be drawn.
    pub fn ensure_rgbw_states(&mut self)
        ensures
            final(self).same_setup(*old(self)),
            final(self).custom_colors == old(self).custom_colors,
            final(self).fader_colors == old(self).fader_colors,
            final(self)@ == (Surface {
                rgbw: rgbw_for_pages(old(self).config.pages@, old(self)@.rgbw),
                ..old(self)@
            }),
            old(self).setup_wf() && pages_wf(old(self).config, old(self)@) && can_show(
                old(self).config.pages@,
                old(self)@.rgbw,
                old(self).current_page,
            ) ==> final(self).wf(),
    {
        let ghost loaded = self@.rgbw;
        let ghost pages = self.config.pages@;
        let mut page: usize = 0;
        assert(self@.rgbw =~= rgbw_for_pages(pages.take(0), loaded));
        while page < self.config.pages.len()
            invariant
                page <= pages.len(),
                pages == self.config.pages@,
                loaded == old(self)@.rgbw,
                self.same_setup(*old(self)),
                self.custom_colors == old(self).custom_colors,
                self.fader_colors == old(self).fader_colors,
                self@ == (Surface {
                    rgbw: rgbw_for_pages(pages.take(page as int), loaded),
                    ..old(self)@
                }),
            decreases pages.len() - page,
        {
            let ghost shorter = pages.take(page as int);
            let ghost longer = pages.take(page + 1);
            if self.config.pages[page].rgbw_mode {
                self.ensure_rgbw_state(page);
            }
            proof {
                let target = rgbw_for_pages(longer, loaded);
                assert forall|p: usize| is_rgbw_page(longer, p) == (is_rgbw_page(shorter, p) || (p
                    == page && pages[page as int].rgbw_mode)) by {
                    if p < page {
                        assert(longer[p as int] == shorter[p as int]);
                    }
                }
                assert(self@.rgbw =~= target);
            }
            page = page + 1;
        }
        assert(pages.take(page as int) =~= pages);
    }

    /// Whether a page can be drawn.
    pub fn can_show_page(&self, page: usize) -> (shown: bool)
        ensures
            shown == can_show(self.config.pages@, self@.rgbw, page),
    {
        if page >= self.config.pages.len() || !self.config.pages[page].rgbw_mode {
            return true;
        }
        assert(self@.rgbw.contains_key(page) == self.rgbw_states@.contains_key(page));
        match self.rgbw_states.get(&page) {
            Some(rgbw) => {
                assert(self@.rgbw[page] == rgbw@);
                rgbw.active_profile < RGBW_NUM_PROFILES
            },
            None => true,
        }
    }

    /// The colour of a fader.
    pub fn get_fader_color(&self, page_idx: usize, col: u8) -> (color: u8)
        requires
            page_idx < self.config.pages@.len(),
            self.fader_colors.wf(),
        ensures
            color == fader_color(self.config, self@, page_idx, col),
    {
        if let Some(color) = self.fader_colors.get(page_idx, col) {
            return color;
        }
        match &self.config.pages[page_idx].fader_config {
            Some(fader) => fader.color_on,
            None => 72,
        }
    }

    /// The colour of a custom pad.
    pub fn custom_button_color(&self, page_idx: usize, note: u8) -> (color: u8)
        requires
            page_idx < self.config.pages@.len(),
            self.custom_colors.wf(),
        ensures
            color == custom_color(self.config, self@, page_idx, note),
    {
        if let Some(color) = self.custom_colors.get(page_idx, note) {
            return color;
        }
        let buttons = &self.config.pages[page_idx].buttons;
        match button_index(buttons, note) {
            Some(i) => buttons[i].color,
            None => 21,
        }
    }

    /// The address of a custom pad.
    pub fn custom_osc_address(&self, page_idx: usize, note: u8) -> (address: String)
        requires
            page_idx < self.config.pages@.len(),
        ensures
            address@ == custom_address(self.config, page_idx, note),
    {
        let buttons = &self.config.pages[page_idx].buttons;
        if let Some(i) = button_index(buttons, note) {
            return buttons[i].osc_address.clone();
        }
        match note_to_grid(note) {
            Some((col, row)) => {
                let mut address = String::from_str("/lp/c");
                append_decimal(&mut address, grid_to_pad_index(col, row) as u64);
                address
            },
            None => String::from_str("/lp/custom/unknown"),
        }
    }

    /// Gives a page new profiles where it has none.
    pub fn ensure_rgbw_state(&mut self, page_idx: usize)
        ensures
            final(self).same_setup(*old(self)),
            final(self).custom_colors == old(self).custom_colors,
            final(self).fader_colors == old(self).fader_colors,
            final(self)@ == (Surface {
                rgbw: old(self)@.rgbw.insert(page_idx, rgbw_at(old(self)@.rgbw, page_idx)),
                ..old(self)@
            }),
    {
        let ghost before = self.rgbw_states@;
        if !self.rgbw_states.contains_key(&page_idx) {
            self.rgbw_states.insert(page_idx, RgbwState::default());
        }
        proof {
            assert(rgbw_view(before).contains_key(page_idx) == before.contains_key(page_idx));
            assert(rgbw_view(self.rgbw_states@) =~= rgbw_view(before).insert(
                page_idx,
                rgbw_at(rgbw_view(before), page_idx),
            ));
        }
    }
}

/// The colours in the text of a file.
fn load_colors(text: Option<String>) -> (colors: ColorMap)
    ensures
        colors.wf(),
        loaded_colors(text_view(text), colors@),
{
    match text {
        Some(t) => colors_from_json(t.as_str()),
        None => ColorMap::new(),
    }
}

} // verus!
