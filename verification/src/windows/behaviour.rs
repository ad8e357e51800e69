//! What the pads and buttons of the bridge are for: the numbers that they send, where
//! these go, and what stays unchanged.

use vstd::prelude::*;

use crate::actions::{sends, Effect};
use crate::colors::{parsed_colors, reads_as};
use crate::config::{find_button, law_find_button};
use crate::frame::{
    grid_rows, law_grid_frames_stay_on_grid, law_later_pairs_win, lemma_not_shown, shown,
};
use crate::grid::{cell_of, note_at};
use crate::midi::MidiEvent;
use crate::pages::{fader_colors, held_for, xy_colors};
use crate::position::{law_nudge, law_nudge_adds, lemma_centre, nearest_single, nudged, spacing};
use crate::sysex::led_message;
use crate::text::decimal;
use crate::windows::handle::{
    button_press, can_take, control, custom_press, fader_press, flash_event, modifier_press,
    note_off, note_on, nudge_press, nudge_start, picker_press, profile_press, rgbw_press, step,
    xy_press,
};
use crate::windows::laws::{has_mode, law_page_is_shown, lemma_layers, lemma_picker_layers};
use crate::windows::nudge::{law_nudge_steps, nudge_of};

use crate::windows::render::{
    custom_pad_colors, flash_colors, frame, mark, nudge_pad_colors, palette_colors,
    picker_selector_colors, profile_leds, redraw, rgbw_colors, selector_colors,
};
use crate::windows::rgbw::{rgbw_default, RgbwConfig, RgbwModel};
use crate::windows::state::{
    can_show, custom_address, custom_color, fader_color, initial_surface, loaded_colors, rgbw_at,
    rgbw_for_pages, surface_wf, text_view, BridgeState, Config, Overlay, PageConfig, Surface,
};

verus! {

/// The message that shows a surface.
pub open spec fn drawing(config: Config, s: Surface) -> Effect {
    Effect::Midi { bytes: led_message(frame(config, s)) }
}

/// A redraw is the message of the frame.
pub proof fn law_redraw(config: Config, s: Surface)
    ensures
        redraw(config, s) matches Effect::Midi { bytes } && bytes == led_message(frame(config, s)),
{
}

/// The first button with a note is at this position.
pub open spec fn is_first_button(page: PageConfig, note: u8, i: int) -> bool {
    &&& 0 <= i < page.buttons@.len()
    &&& page.buttons@[i].note == note
    &&& forall|j: int| 0 <= j < i ==> (#[trigger] page.buttons@[j]).note != note
}

/// No button has this note.
pub open spec fn has_no_button(page: PageConfig, note: u8) -> bool {
    forall|j: int| 0 <= j < page.buttons@.len() ==> (#[trigger] page.buttons@[j]).note != note
}

/// The button that is found is the first one with the note.
proof fn lemma_first_button(page: PageConfig, note: u8, i: int)
    ensures
        is_first_button(page, note, i) ==> find_button(page.buttons@, note) == Some(
            page.buttons@[i],
        ),
        has_no_button(page, note) ==> find_button(page.buttons@, note) is None,
{
    law_find_button(page.buttons@, note);
    if is_first_button(page, note, i) {
        let k = choose|k: int|
            {
                &&& 0 <= k < page.buttons@.len()
                &&& #[trigger] page.buttons@[k] == find_button(page.buttons@, note)->0
                &&& page.buttons@[k].note == note
                &&& forall|j: int| 0 <= j < k ==> (#[trigger] page.buttons@[j]).note != note
            };
        if k < i {
            assert(page.buttons@[k].note != note);
        }
        if i < k {
            assert(page.buttons@[i].note != note);
        }
    }
}

/// A press on a page without a mode sends the value of the first button that lies there to
/// its address, and nothing where none lies there.
pub proof fn law_button_sends(page: PageConfig, note: u8, i: int)
    ensures
        is_first_button(page, note, i) ==> button_press(page, note) == seq![
            Effect::Osc {
                address: page.buttons@[i].osc_address@,
                value: page.buttons@[i].osc_value,
            },
        ],
        has_no_button(page, note) ==> button_press(page, note).len() == 0,
{
    lemma_first_button(page, note, i);
}

/// A custom pad sends one message: that of its first button, or else 1 to an address made
/// of its number from 1 to 64, counted row by row from the bottom left. Beside the grid the
/// address is a fixed one.
pub proof fn law_custom_sends(config: Config, s: Surface, note: u8, i: int)
    ensures
        ({
            let page = config.pages@[s.current_page as int];
            let list = custom_press(config, s, note);
            &&& list.len() == 1
            &&& is_first_button(page, note, i) ==> list[0] == (Effect::Osc {
                address: page.buttons@[i].osc_address@,
                value: page.buttons@[i].osc_value,
            })
            &&& has_no_button(page, note) ==> match cell_of(note) {
                Some((col, row)) => sends(
                    list[0],
                    "/lp/c"@ + decimal((8 * row + col + 1) as nat),
                    1,
                    1,
                ),
                None => sends(list[0], "/lp/custom/unknown"@, 1, 1),
            }
        }),
{
    lemma_first_button(config.pages@[s.current_page as int], note, i);
}

/// The address and the colour of a custom pad, on any page: those of its first button,
/// where no colour was chosen, else the address made of its number and green.
pub proof fn law_custom_pad(config: Config, s: Surface, page: usize, note: u8, i: int)
    ensures
        ({
            let p = config.pages@[page as int];
            &&& is_first_button(p, note, i) ==> custom_address(config, page, note)
                == p.buttons@[i].osc_address@
            &&& has_no_button(p, note) ==> custom_address(config, page, note) == (match cell_of(
                note,
            ) {
                Some((col, row)) => "/lp/c"@ + decimal((8 * row + col + 1) as nat),
                None => "/lp/custom/unknown"@,
            })
            &&& s.custom_colors.contains_key((page, note)) ==> custom_color(config, s, page, note)
                == s.custom_colors[(page, note)]
            &&& !s.custom_colors.contains_key((page, note)) && is_first_button(p, note, i)
                ==> custom_color(config, s, page, note) == p.buttons@[i].color
            &&& !s.custom_colors.contains_key((page, note)) && has_no_button(p, note)
                ==> custom_color(config, s, page, note) == 21
        }),
{
    lemma_first_button(config.pages@[page as int], note, i);
}

/// The colour of a fader is the chosen one, else that of the configuration, else white.
pub proof fn law_fader_color(config: Config, s: Surface, page: usize, col: u8)
    ensures
        s.fader_colors.contains_key((page, col)) ==> fader_color(config, s, page, col)
            == s.fader_colors[(page, col)],
        !s.fader_colors.contains_key((page, col)) ==> (
        config.pages@[page as int].fader_config matches Some(fader) ==> fader_color(
            config,
            s,
            page,
            col,
        ) == fader.color_on),
        !s.fader_colors.contains_key((page, col)) && config.pages@[page as int].fader_config is None
            ==> fader_color(config, s, page, col) == 72,
{
}

/// A press on an XY page selects the cell and sends its column in sevenths from the left
/// to the pan address and its row in sevenths from the top to the tilt address. The same
/// numbers, in single precision, are where nudges of this page start from. A press beside
/// the grid does nothing.
pub proof fn law_xy_sends(config: Config, s: Surface, note: u8)
    ensures
        ({
            let (after, list) = xy_press(config, s, note);
            match cell_of(note) {
                Some((col, row)) => {
                    &&& after == Surface {
                        xy_selected: Some((col, row)),
                        nudge_pan: after.nudge_pan,
                        nudge_tilt: after.nudge_tilt,
                        ..s
                    }
                    &&& list.last() == drawing(config, after)
                    &&& match config.pages@[s.current_page as int].xy_config {
                        Some(xy) => {
                            &&& list.len() == 3
                            &&& sends(list[0], xy.pan_address@, col as int, 7)
                            &&& sends(list[1], xy.tilt_address@, 7 - row, 7)
                            &&& after.nudge_pan == s.nudge_pan.insert(
                                s.current_page,
                                nearest_single(col * 0x8000_0000, 7) as u32,
                            )
                            &&& after.nudge_tilt == s.nudge_tilt.insert(
                                s.current_page,
                                nearest_single((7 - row) * 0x8000_0000, 7) as u32,
                            )
                        },
                        None => {
                            &&& list.len() == 1
                            &&& after.nudge_pan == s.nudge_pan
                            &&& after.nudge_tilt == s.nudge_tilt
                        },
                    }
                },
                None => after == s && list.len() == 0,
            }
        }),
{
}

/// Nudges of a page start from the position that was set there, or from the centre.
pub proof fn law_nudge_start(positions: Map<usize, u32>, page: usize)
    ensures
        positions.contains_key(page) ==> nudge_start(positions, page) == positions[page],
        !positions.contains_key(page) ==> 2 * nudge_start(positions, page) == 0x8000_0000,
{
}

/// Where a position is after a nudge: the sum, rounded to single precision, where that
/// lies between 0 and 1, and else the nearer end.
pub open spec fn has_moved(from: int, delta: int, to: int) -> bool {
    &&& from + delta <= 0 ==> to == 0
    &&& from + delta >= 0x8000_0000 ==> to == 0x8000_0000
    &&& 0 <= from + delta <= 0x8000_0000 ==> {
        &&& to % spacing(from + delta) == 0
        &&& -spacing(from + delta) <= 2 * (to - (from + delta)) <= spacing(from + delta)
        &&& delta > 0 ==> to > from
        &&& delta < 0 ==> to < from
        &&& delta == 0 ==> to == from
    }
}

/// A press on a pad of a nudge page that has a step moves pan and tilt of this page by
/// that step and sends both new positions, and changes nothing else. Any other press does
/// nothing.
pub proof fn law_nudge_moves(config: Config, s: Surface, note: u8)
    requires
        surface_wf(config, s),
    ensures
        ({
            let (after, list) = nudge_press(config, s, note);
            let moves = match cell_of(note) {
                Some((col, row)) => nudge_of(col, row),
                None => None,
            };
            match (moves, config.pages@[s.current_page as int].xy_config) {
                (Some((dp, dt)), Some(xy)) => {
                    &&& after == Surface {
                        nudge_pan: after.nudge_pan,
                        nudge_tilt: after.nudge_tilt,
                        ..s
                    }
                    &&& after.nudge_pan == s.nudge_pan.insert(
                        s.current_page,
                        after.nudge_pan[s.current_page],
                    )
                    &&& after.nudge_tilt == s.nudge_tilt.insert(
                        s.current_page,
                        after.nudge_tilt[s.current_page],
                    )
                    &&& has_moved(
                        nudge_start(s.nudge_pan, s.current_page),
                        dp,
                        after.nudge_pan[s.current_page] as int,
                    )
                    &&& has_moved(
                        nudge_start(s.nudge_tilt, s.current_page),
                        dt,
                        after.nudge_tilt[s.current_page] as int,
                    )
                    &&& list.len() == 2
                    &&& sends(
                        list[0],
                        xy.pan_address@,
                        after.nudge_pan[s.current_page] as int,
                        0x8000_0000,
                    )
                    &&& sends(
                        list[1],
                        xy.tilt_address@,
                        after.nudge_tilt[s.current_page] as int,
                        0x8000_0000,
                    )
                },
                _ => after == s && list.len() == 0,
            }
        }),
{
    if let Some((col, row)) = cell_of(note) {
        law_nudge_steps(col, row);
        if let Some((dp, dt)) = nudge_of(col, row) {
            lemma_centre();
            let pan = nudge_start(s.nudge_pan, s.current_page);
            let tilt = nudge_start(s.nudge_tilt, s.current_page);
            lemma_moved(pan, dp);
            lemma_moved(tilt, dt);
            let after = nudge_press(config, s, note).0;
            if config.pages@[s.current_page as int].xy_config is Some {
                assert(after.nudge_pan =~= s.nudge_pan.insert(
                    s.current_page,
                    after.nudge_pan[s.current_page],
                ));
                assert(after.nudge_tilt =~= s.nudge_tilt.insert(
                    s.current_page,
                    after.nudge_tilt[s.current_page],
                ));
            }
        }
    }
}

/// A nudge moves a position.
proof fn lemma_moved(from: int, delta: int)
    requires
        0 <= from <= 0x8000_0000,
        crate::position::is_single(from),
        delta == 0 || delta >= 256 || delta <= -256,
    ensures
        0 <= nudged(from, delta) <= 0x8000_0000,
        has_moved(from, delta, nudged(from, delta)),
{
    law_nudge(from, delta);
    if 0 <= from + delta <= 0x8000_0000 {
        law_nudge_adds(from, delta);
    }
}

/// A press on a fader page sets the column to the step that was pressed, or to 0 where it
/// was there, changes no other column, and sends the level to the address of the column:
/// 0 when off, else in sevenths from 0 at the first step to 1 at the last.
pub proof fn law_fader_sends(config: Config, s: Surface, note: u8)
    requires
        surface_wf(config, s),
    ensures
        ({
            let (after, list) = fader_press(config, s, note);
            match cell_of(note) {
                Some((col, row)) => {
                    let off = s.fader_levels[col as int] == row + 1;
                    &&& after == Surface { fader_levels: after.fader_levels, ..s }
                    &&& after.fader_levels.len() == 8
                    &&& after.fader_levels[col as int] == (if off {
                        0
                    } else {
                        row + 1
                    })
                    &&& forall|i: int|
                        0 <= i < 8 && i != col ==> #[trigger] after.fader_levels[i]
                            == s.fader_levels[i]
                    &&& list.last() == drawing(config, after)
                    &&& match config.pages@[s.current_page as int].fader_config {
                        Some(fader) => if col < fader.addresses@.len() {
                            list.len() == 2 && sends(
                                list[0],
                                fader.addresses@[col as int]@,
                                if off {
                                    0
                                } else {
                                    row as int
                                },
                                7,
                            )
                        } else {
                            list.len() == 1
                        },
                        None => list.len() == 1,
                    }
                },
                None => after == s && list.len() == 0,
            }
        }),
{
}

/// A flash button sends the level of its column while it is held, 0 for off and else in
/// sixths from 0 at the first step to 1 at the seventh, and 0 when it is released. It
/// changes only whether it is held. Above it, a press sets the level to the row, or to 0
/// where it was there, and sends nothing; a release does nothing.
pub proof fn law_flash_sends(config: Config, s: Surface, note: u8, pressed: bool)
    requires
        surface_wf(config, s),
    ensures
        ({
            let (after, list) = flash_event(config, s, note, pressed);
            match (cell_of(note), config.pages@[s.current_page as int].fader_config) {
                (Some((col, row)), Some(fader)) => {
                    let level = s.fader_levels[col as int];
                    &&& row == 0 ==> {
                        &&& after == Surface { flash_pressed: after.flash_pressed, ..s }
                        &&& after.flash_pressed == s.flash_pressed.update(col as int, pressed)
                        &&& list.last() == drawing(config, after)
                        &&& if col < fader.addresses@.len() {
                            list.len() == 2 && sends(
                                list[0],
                                fader.addresses@[col as int]@,
                                if pressed && level > 0 {
                                    level - 1
                                } else {
                                    0
                                },
                                6,
                            )
                        } else {
                            list.len() == 1
                        }
                    }
                    &&& row > 0 && pressed ==> {
                        &&& after == Surface { fader_levels: after.fader_levels, ..s }
                        &&& after.fader_levels == s.fader_levels.update(
                            col as int,
                            if level == row {
                                0
                            } else {
                                row
                            },
                        )
                        &&& list == seq![drawing(config, after)]
                    }
                    &&& row > 0 && !pressed ==> after == s && list.len() == 0
                },
                _ => after == s && list.len() == 0,
            }
        }),
{
}

/// The addresses of the colour that a column stands for: red, green, blue and white, two
/// columns each.
pub open spec fn column_addresses(rgbw: RgbwConfig, col: u8) -> Seq<String> {
    if col <= 1 {
        rgbw.r_addresses@
    } else if col <= 3 {
        rgbw.g_addresses@
    } else if col <= 5 {
        rgbw.b_addresses@
    } else {
        rgbw.w_addresses@
    }
}

/// A press on an RGBW page sets the level of the column's colour in the profile that is
/// shown to the step that was pressed, or to 0 where it was there. It sends the level in
/// eighths: from the master to every address of the colour, from a fixture to the address
/// of that fixture. Then the profiles are saved and the page is drawn.
pub proof fn law_rgbw_sends(config: Config, s: Surface, note: u8)
    requires
        rgbw_at(s.rgbw, s.current_page).wf(),
    ensures
        ({
            let model = rgbw_at(s.rgbw, s.current_page);
            let (after, list) = rgbw_press(config, s, note);
            match cell_of(note) {
                Some((col, row)) => {
                    let level: int = if model.levels[model.active][col as int / 2] == row + 1 {
                        0
                    } else {
                        row + 1
                    };
                    let new = after.rgbw[s.current_page];
                    let n = list.len() - 2;
                    &&& after == Surface { rgbw: s.rgbw.insert(s.current_page, new), ..s }
                    &&& new.active == model.active
                    &&& new.levels.len() == 7
                    &&& forall|p: int, c: int|
                        0 <= p < 7 && 0 <= c < 4 ==> #[trigger] new.levels[p][c] == (if p
                            == model.active && c == col as int / 2 {
                            level
                        } else {
                            model.levels[p][c] as int
                        })
                    &&& n >= 0
                    &&& list[n] is SaveRgbw
                    &&& list[n + 1] == drawing(config, after)
                    &&& match config.pages@[s.current_page as int].rgbw_config {
                        Some(rgbw) => {
                            let all = column_addresses(rgbw, col);
                            if model.active == 0 {
                                &&& n == all.len()
                                &&& forall|i: int|
                                    0 <= i < n ==> sends(#[trigger] list[i], all[i]@, level, 8)
                            } else if model.active <= all.len() {
                                n == 1 && sends(list[0], all[model.active - 1]@, level, 8)
                            } else {
                                n == 0
                            }
                        },
                        None => n == 0,
                    }
                },
                None => after == s && list.len() == 0,
            }
        }),
{
    let model = rgbw_at(s.rgbw, s.current_page);
    let (after, list) = rgbw_press(config, s, note);
    if let Some((col, row)) = cell_of(note) {
        assert(after.rgbw =~= s.rgbw.insert(s.current_page, after.rgbw[s.current_page]));
    }
}

/// The right column of an RGBW page, from the bottom: the first button does nothing, the
/// next ones show the fixtures from the sixth to the first, and the top one the master. A
/// fixture starts from the levels of the master. No message is sent. The button of the
/// profile that is shown does nothing.
pub proof fn law_profile_button(config: Config, s: Surface, index: usize)
    requires
        index < 8,
        rgbw_at(s.rgbw, s.current_page).levels.len() == 7,
    ensures
        ({
            let model = rgbw_at(s.rgbw, s.current_page);
            let (after, list) = profile_press(config, s, index);
            let new = after.rgbw[s.current_page];
            if index == 0 {
                after == s && list.len() == 0
            } else {
                &&& after == Surface { rgbw: s.rgbw.insert(s.current_page, new), ..s }
                &&& new.active + index == 7
                &&& new.active == model.active ==> new == model && list.len() == 0
                &&& new.active != model.active ==> {
                    &&& new.levels.len() == 7
                    &&& forall|p: int|
                        0 <= p < 7 ==> #[trigger] new.levels[p] == (if p == new.active {
                            model.levels[0]
                        } else {
                            model.levels[p]
                        })
                    &&& list == seq![Effect::SaveRgbw, drawing(config, after)]
                }
            }
        }),
{
    let after = profile_press(config, s, index).0;
    if index > 0 {
        assert(after.rgbw =~= s.rgbw.insert(s.current_page, after.rgbw[s.current_page]));
    }
}

/// New profiles are all 0, with the master shown, and a page without profiles has these.
pub proof fn law_new_profiles(rgbw: Map<usize, RgbwModel>, page: usize, p: int, c: int)
    requires
        0 <= p < 7,
        0 <= c < 4,
    ensures
        rgbw_default().active == 0,
        rgbw_default().levels.len() == 7,
        rgbw_default().levels[p].len() == 4,
        rgbw_default().levels[p][c] == 0,
        rgbw.contains_key(page) ==> rgbw_at(rgbw, page) == rgbw[page],
        !rgbw.contains_key(page) ==> rgbw_at(rgbw, page) == rgbw_default(),
{
}

/// Filling in profiles gives new ones to the RGBW pages that have none and leaves all
/// others as they are.
pub proof fn law_filled_profiles(
    pages: Seq<PageConfig>,
    rgbw: Map<usize, RgbwModel>,
    page: usize,
)
    ensures
        rgbw.contains_key(page) ==> rgbw_for_pages(pages, rgbw).contains_key(page)
            && rgbw_for_pages(pages, rgbw)[page] == rgbw[page],
        !rgbw.contains_key(page) ==> (rgbw_for_pages(pages, rgbw).contains_key(page) <==> page
            < pages.len() && pages[page as int].rgbw_mode),
        !rgbw.contains_key(page) && rgbw_for_pages(pages, rgbw).contains_key(page)
            ==> rgbw_for_pages(pages, rgbw)[page] == rgbw_default(),
{
}

/// A page can be drawn unless it is an RGBW page that shows a profile above the sixth.
pub proof fn law_can_show(pages: Seq<PageConfig>, rgbw: Map<usize, RgbwModel>, page: usize)
    requires
        rgbw.contains_key(page) ==> rgbw[page].levels.len() == 7 && rgbw[page].active >= 0 && (
        forall|p: int| 0 <= p < 7 ==> (#[trigger] rgbw[page].levels[p]).len() == 4),
    ensures
        can_show(pages, rgbw, page) <==> !(page < pages.len() && pages[page as int].rgbw_mode
            && rgbw.contains_key(page) && rgbw[page].active > 6),
{
}

/// The bridge starts on the first page with everything off, nothing chosen, nothing held
/// and no position set.
pub proof fn law_start(
    custom_colors: Map<(usize, u8), u8>,
    fader_colors: Map<(usize, u8), u8>,
    rgbw: Map<usize, RgbwModel>,
    i: int,
)
    requires
        0 <= i < 8,
    ensures
        ({
            let s = initial_surface(custom_colors, fader_colors, rgbw);
            &&& s.current_page == 0
            &&& s.fader_levels.len() == 8 && s.fader_levels[i] == 0
            &&& s.flash_pressed.len() == 8 && !s.flash_pressed[i]
            &&& s.xy_selected is None
            &&& s.overlay is Closed
            &&& !s.modifier
            &&& s.custom_colors == custom_colors
            &&& s.fader_colors == fader_colors
            &&& s.rgbw == rgbw
            &&& s.press_times == Map::<u8, u64>::empty()
            &&& s.nudge_pan == Map::<usize, u32>::empty()
            &&& s.nudge_tilt == Map::<usize, u32>::empty()
        }),
{
}

/// The surface with a page shown anew: faders off, no cell selected, no pad held.
pub open spec fn shown_anew(s: Surface, index: usize, rgbw: Map<usize, RgbwModel>) -> Surface {
    Surface {
        current_page: index,
        fader_levels: Seq::new(8, |i: int| 0u8),
        xy_selected: None,
        press_times: Map::empty(),
        rgbw,
        ..s
    }
}

/// What a button of the top row or the right column does. The bottom button of the right
/// column switches the modifier, and its release switches it off. A pressed selector closes
/// the colour picker, or else shows its page, if there is one. On RGBW pages the right
/// column chooses the profile. Nothing else happens.
pub proof fn law_controls(config: Config, s: Surface, number: u8, value: u8)
    ensures
        ({
            let (after, list) = control(config, s, number, value);
            let page = config.pages@[s.current_page as int];
            if number == 19 && value == 0 {
                after == (Surface { modifier: false, ..s }) && list.len() == 0
            } else if number == 19 {
                &&& after == Surface { modifier: !s.modifier, ..s }
                &&& list == seq![drawing(config, after)]
            } else if value == 0 {
                after == s && list.len() == 0
            } else if 91 <= number <= 98 {
                let index = (number - 91) as usize;
                if !(s.overlay is Closed) {
                    &&& after == Surface { overlay: Overlay::Closed, ..s }
                    &&& list == seq![drawing(config, after)]
                } else if index < config.pages@.len() {
                    &&& after == shown_anew(s, index, after.rgbw)
                    &&& after.rgbw == (if config.pages@[index as int].rgbw_mode {
                        s.rgbw.insert(index, rgbw_at(s.rgbw, index))
                    } else {
                        s.rgbw
                    })
                    &&& list == seq![drawing(config, after)]
                } else {
                    after == s && list.len() == 0
                }
            } else if 29 <= number <= 89 && number % 10 == 9 && page.rgbw_mode {
                (after, list) == profile_press(config, s, (number / 10 - 1) as usize)
            } else {
                after == s && list.len() == 0
            }
        }),
{
}

/// A press while the colour picker is open closes it. On the grid it gives the pad or the
/// fader that the picker was opened for the colour of the pressed pad, counted from 0 at
/// the top left to the right and down, and saves it.
pub proof fn law_picking(config: Config, s: Surface, note: u8)
    requires
        !(s.overlay is Closed),
    ensures
        ({
            let (after, list) = picker_press(config, s, note);
            match cell_of(note) {
                Some((col, row)) => {
                    let color = (8 * (7 - row) + col) as u8;
                    match s.overlay {
                        Overlay::ColorPicker { page_idx, note: target } => {
                            &&& after == Surface {
                                overlay: Overlay::Closed,
                                custom_colors: s.custom_colors.insert((page_idx, target), color),
                                ..s
                            }
                            &&& list == seq![Effect::SaveColors, drawing(config, after)]
                        },
                        Overlay::FlashFaderColorPicker { page_idx, col: target } => {
                            &&& after == Surface {
                                overlay: Overlay::Closed,
                                fader_colors: s.fader_colors.insert((page_idx, target), color),
                                ..s
                            }
                            &&& list == seq![Effect::SaveFaderColors, drawing(config, after)]
                        },
                        Overlay::Closed => true,
                    }
                },
                None => {
                    &&& after == Surface { overlay: Overlay::Closed, ..s }
                    &&& list == seq![drawing(config, after)]
                },
            }
        }),
{
}

/// A press while the modifier is active opens the colour picker for a custom pad, or for
/// the fader above the bottom row of a flash page. Any other press does nothing then.
pub proof fn law_modified_press(config: Config, s: Surface, note: u8)
    ensures
        ({
            let (after, list) = modifier_press(config, s, note);
            let page = config.pages@[s.current_page as int];
            let fader = match cell_of(note) {
                Some((col, row)) => if row > 0 {
                    Some(col)
                } else {
                    None
                },
                None => None,
            };
            if page.custom_mode {
                &&& after == Surface {
                    overlay: Overlay::ColorPicker { page_idx: s.current_page, note },
                    ..s
                }
                &&& list == seq![drawing(config, after)]
            } else if page.flash_fader_mode && fader is Some {
                &&& after == Surface {
                    overlay: Overlay::FlashFaderColorPicker {
                        page_idx: s.current_page,
                        col: fader->0,
                    },
                    ..s
                }
                &&& list == seq![drawing(config, after)]
            } else {
                after == s && list.len() == 0
            }
        }),
{
}

/// Which handler a press goes to, once its time is noted: the open picker, the modifier,
/// and then the page by its mode.
pub proof fn law_presses(config: Config, s: Surface, note: u8, now: u64)
    ensures
        ({
            let page = config.pages@[s.current_page as int];
            let held = Surface { press_times: s.press_times.insert(note, now), ..s };
            let result = step(config, s, MidiEvent::NoteOn { note }, now);
            &&& result == note_on(config, s, note, now)
            &&& if !(s.overlay is Closed) {
                result == picker_press(config, held, note)
            } else if s.modifier {
                result == modifier_press(config, held, note)
            } else if page.rgbw_mode {
                result == rgbw_press(config, held, note)
            } else if page.nudge_xy_mode {
                result == nudge_press(config, held, note)
            } else if page.xy_mode {
                result == xy_press(config, held, note)
            } else if page.fader_mode {
                result == fader_press(config, held, note)
            } else if page.flash_fader_mode {
                result == flash_event(config, held, note, true)
            } else if page.custom_mode {
                result.0 == held && result.1.len() == 0
            } else {
                result == (held, button_press(page, note))
            }
        }),
{
}

/// What a release does after some time. Nothing while the picker is open. A flash button is
/// released. After half a second the picker opens for the fader of a flash page or for a
/// custom pad; after less a custom pad sends its message.
pub proof fn law_releases(config: Config, s: Surface, note: u8, elapsed: int)
    ensures
        ({
            let page = config.pages@[s.current_page as int];
            let (after, list) = note_off(config, s, note, elapsed);
            if !(s.overlay is Closed) {
                after == s && list.len() == 0
            } else if page.flash_fader_mode && 11 <= note <= 18 {
                (after, list) == flash_event(config, s, note, false)
            } else if page.flash_fader_mode && cell_of(note) is Some && elapsed >= 500_000_000 {
                &&& after.overlay matches Overlay::FlashFaderColorPicker { page_idx, col }
                    && page_idx == s.current_page && cell_of(note) == Some(
                    (col, (note / 10 - 1) as u8),
                )
                &&& after == Surface { overlay: after.overlay, ..s }
                &&& list == seq![drawing(config, after)]
            } else if page.custom_mode && elapsed >= 500_000_000 {
                &&& after == Surface {
                    overlay: Overlay::ColorPicker { page_idx: s.current_page, note },
                    ..s
                }
                &&& list == seq![drawing(config, after)]
            } else if page.custom_mode {
                after == s && list == custom_press(config, s, note)
            } else {
                after == s && list.len() == 0
            }
        }),
{
}

/// A release ends the press of the pad, and what it does depends on how long that was.
pub proof fn law_release_ends_press(config: Config, s: Surface, note: u8, now: u64)
    ensures
        step(config, s, MidiEvent::NoteOff { note }, now) == note_off(
            config,
            Surface { press_times: s.press_times.remove(note), ..s },
            note,
            held_for(s.press_times, note, now),
        ),
{
}

/// Controls go to the buttons of the edge, and messages of other kinds do nothing. Only a
/// switch to a page that cannot be drawn cannot be taken.
pub proof fn law_other_messages(config: Config, s: Surface, event: MidiEvent, now: u64)
    ensures
        event matches MidiEvent::Control { number, value } ==> {
            &&& step(config, s, event, now) == control(config, s, number, value)
            &&& can_take(config, s, event) <==> (value == 0 || !(s.overlay is Closed) || !(91
                <= number <= 98) || can_show(config.pages@, s.rgbw, (number - 91) as usize))
        },
        event is Other ==> step(config, s, event, now).0 == s && step(
            config,
            s,
            event,
            now,
        ).1.len() == 0,
        !(event is Control) ==> can_take(config, s, event),
{
}

/// The current page's selector is white, those of other pages have their own colour, and
/// selectors without a page are dark. While a colour is chosen, that of the current page is
/// red and all others are dark.
pub proof fn law_selector_colors(pages: Seq<PageConfig>, current: usize, i: int)
    requires
        0 <= i < 8,
    ensures
        i >= pages.len() ==> selector_colors(pages, current)(i) == 0,
        i < pages.len() && i == current ==> selector_colors(pages, current)(i) == 72,
        i < pages.len() && i != current ==> selector_colors(pages, current)(i)
            == pages[i].selector_color,
        i == current ==> picker_selector_colors(current)(i) == 5,
        i != current ==> picker_selector_colors(current)(i) == 0,
{
}

/// On an RGBW page the columns are red, green, blue and white in pairs, bright up to the
/// level of the profile that is shown and dim above it.
pub proof fn law_rgbw_colors(config: Config, s: Surface, col: u8, row: u8)
    requires
        surface_wf(config, s),
        s.overlay is Closed,
        config.pages@[s.current_page as int].rgbw_mode,
        col < 8,
        row < 8,
    ensures
        ({
            let model = s.rgbw[s.current_page];
            let lit = model.levels[model.active][col as int / 2] > row;
            shown(frame(config, s), note_at(col, row)) == Some(
                if col <= 1 {
                    if lit {
                        5u8
                    } else {
                        1
                    }
                } else if col <= 3 {
                    if lit {
                        21
                    } else {
                        17
                    }
                } else if col <= 5 {
                    if lit {
                        45
                    } else {
                        41
                    }
                } else {
                    if lit {
                        72
                    } else {
                        1
                    }
                },
            )
        }),
{
    law_page_is_shown(config, s, col, row, 0);
}

/// What no law of this page speaks of is dark: on pages with a mode, all numbers below 100
/// beside the pads, the selectors, the modifier button and, on RGBW pages, the right column.
pub proof fn law_rest_is_dark(config: Config, s: Surface, number: u8)
    requires
        surface_wf(config, s),
        s.overlay is Closed,
        has_mode(config.pages@[s.current_page as int]),
        number < 100,
        cell_of(number) is None || number % 10 == 0,
        !(91 <= number <= 98),
        number % 10 != 9 || number < 19 || number > 89 || (number != 19
            && !config.pages@[s.current_page as int].rgbw_mode),
    ensures
        shown(frame(config, s), number) == Some(0u8),
{
    let page = config.pages@[s.current_page as int];
    lemma_layers(config, s, number);
    law_grid_frames_stay_on_grid(flash_colors(config, s), number);
    law_grid_frames_stay_on_grid(custom_pad_colors(config, s), number);
    law_grid_frames_stay_on_grid(nudge_pad_colors(), number);
    if page.rgbw_mode {
        let model = s.rgbw[s.current_page];
        law_grid_frames_stay_on_grid(rgbw_colors(model), number);
        law_later_pairs_win(grid_rows(rgbw_colors(model)), profile_leds(model.active), number);
        lemma_not_shown(profile_leds(model.active), number);
    }
    if let Some(xy) = page.xy_config {
        law_grid_frames_stay_on_grid(xy_colors(xy, s.xy_selected), number);
    }
    if let Some(fader) = page.fader_config {
        law_grid_frames_stay_on_grid(fader_colors(fader, s.fader_levels), number);
    }
}

/// While a colour is chosen, the selectors show the current page, and everything but the
/// palette, the selectors and the modifier button is dark.
pub proof fn law_picker_surroundings(config: Config, s: Surface, number: u8)
    requires
        surface_wf(config, s),
        !(s.overlay is Closed),
        number < 100,
        cell_of(number) is None || number % 10 == 0,
        number != 19,
    ensures
        shown(frame(config, s), number) == Some(
            if 91 <= number <= 98 && number - 91 == s.current_page {
                5u8
            } else {
                0u8
            },
        ),
{
    let current = match s.overlay {
        Overlay::ColorPicker { page_idx, note } => custom_color(config, s, page_idx, note),
        Overlay::FlashFaderColorPicker { page_idx, col } => fader_color(config, s, page_idx, col),
        Overlay::Closed => 0,
    };
    lemma_picker_layers(s.current_page, current, number);
    law_grid_frames_stay_on_grid(palette_colors(), number);
    lemma_not_shown(mark(current), number);
}

/// The surface holds the parts of the state as they are.
pub proof fn law_surface(state: BridgeState, page: usize)
    ensures
        state@.current_page == state.current_page,
        state@.fader_levels == state.fader_levels@,
        state@.xy_selected == state.xy_selected,
        state@.overlay == state.overlay,
        state@.custom_colors == state.custom_colors@,
        state@.fader_colors == state.fader_colors@,
        state@.press_times == state.press_times@,
        state@.rgbw.contains_key(page) <==> state.rgbw_states@.contains_key(page),
        state.rgbw_states@.contains_key(page) ==> state@.rgbw[page] == state.rgbw_states@[page]@,
        state@.modifier == state.color_picker_modifier_active,
        state@.flash_pressed == state.flash_buttons_pressed@,
        state@.nudge_pan == state.nudge_pan@,
        state@.nudge_tilt == state.nudge_tilt@,
{
}

/// The colours at the start are those that can be read from the file; without a file, or
/// with one that cannot be read, there are none.
pub proof fn law_loaded_colors(text: Option<String>, colors: Map<(usize, u8), u8>)
    requires
        loaded_colors(text_view(text), colors),
    ensures
        text is None ==> colors == Map::<(usize, u8), u8>::empty(),
        text matches Some(t) ==> match parsed_colors(t@) {
            Some(file) => reads_as(file, colors),
            None => colors == Map::<(usize, u8), u8>::empty(),
        },
{
}

/// A bridge in order sends to the host and port of its configuration, shows one of its
/// pages, and has eight fader levels of at most eight steps.
pub proof fn law_in_order(state: BridgeState, i: int)
    requires
        state.wf(),
        0 <= i < 8,
    ensures
        state.osc_target@ == state.config.osc.host@ + seq![':'] + decimal(
            state.config.osc.port as nat,
        ),
        state.current_page < state.config.pages@.len(),
        state.page() == state.config.pages@[state.current_page as int],
        state.fader_levels@.len() == 8,
        state.fader_levels@[i] <= 8,
{
}

/// A bridge with the same setup has the same configuration, target and paths.
pub proof fn law_same_setup(state: BridgeState, other: BridgeState)
    ensures
        state.same_setup(other) <==> state.config == other.config && state.osc_target
            == other.osc_target && state.colors_path == other.colors_path && state.rgbw_path
            == other.rgbw_path,
{
}

} // verus!
