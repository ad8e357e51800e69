use std::collections::HashMap;

use launchpad_qlc::actions::{Action, OscValue};
use launchpad_qlc::config::{ButtonConfig, FaderConfig, OscConfig, XyConfig};
use launchpad_qlc::position::{nearest, CENTRE, ONE};
use launchpad_qlc::windows::handle::{
    can_handle, handle_button, handle_custom_button, handle_fader, handle_flash_fader, handle_midi,
    handle_nudge_xy, handle_rgbw_grid, handle_rgbw_profile, handle_xy,
};
use launchpad_qlc::windows::nudge::{nudge_color_for_cell, nudge_from_position};
use launchpad_qlc::windows::picker::{picker_cell_for_color, picker_color_for_cell};
use launchpad_qlc::windows::render::render_page;
use launchpad_qlc::windows::rgbw::{RgbwConfig, RgbwState};
use launchpad_qlc::windows::state::{BridgeState, Config, Overlay, PageConfig};

const HALF: OscValue = OscValue::Configured { bits: 0x3F00_0000 };
const ZERO: OscValue = OscValue::Ratio { num: 0, den: 1 };
const FULL: OscValue = OscValue::Ratio { num: 1, den: 1 };

const NORMAL: u8 = 91;
const CUSTOM: u8 = 92;
const XY: u8 = 93;
const FADER: u8 = 94;
const RGBW: u8 = 95;
const NUDGE: u8 = 96;
const FLASH: u8 = 97;

fn page(name: &str, selector_color: u8) -> PageConfig {
    PageConfig {
        name: String::from(name),
        selector_color,
        buttons: vec![],
        xy_mode: false,
        fader_mode: false,
        custom_mode: false,
        rgbw_mode: false,
        nudge_xy_mode: false,
        flash_fader_mode: false,
        xy_config: None,
        fader_config: None,
        rgbw_config: None,
    }
}

fn button(note: u8, color: u8, address: &str) -> ButtonConfig {
    ButtonConfig {
        note,
        label: String::from("label"),
        color,
        osc_address: String::from(address),
        osc_value: HALF,
    }
}

fn names(prefix: &str, count: usize) -> Vec<String> {
    (1..=count).map(|i| format!("{}{}", prefix, i)).collect()
}

fn config() -> Config {
    let xy_config = XyConfig {
        pan_address: String::from("/pan"),
        tilt_address: String::from("/tilt"),
        color_inactive: 2,
        color_active: 3,
    };
    let fader_config =
        FaderConfig { addresses: names("/f", 7), color_on: 60, color_off: 61 };
    let mut normal = page("normal", 5);
    normal.buttons = vec![button(11, 21, "/a"), button(19, 9, "/modifier"), button(92, 8, "/top")];
    let mut custom = page("custom", 6);
    custom.custom_mode = true;
    custom.buttons = vec![button(11, 33, "/own")];
    let mut xy = page("xy", 7);
    xy.xy_mode = true;
    xy.xy_config = Some(xy_config.clone());
    let mut fader = page("fader", 8);
    fader.fader_mode = true;
    fader.fader_config = Some(fader_config.clone());
    let mut rgbw = page("rgbw", 9);
    rgbw.rgbw_mode = true;
    rgbw.rgbw_config = Some(RgbwConfig {
        r_addresses: names("/r", 6),
        g_addresses: names("/g", 6),
        b_addresses: names("/b", 6),
        w_addresses: names("/w", 2),
    });
    let mut nudge = page("nudge", 10);
    nudge.nudge_xy_mode = true;
    nudge.xy_config = Some(xy_config);
    let mut flash = page("flash", 11);
    flash.flash_fader_mode = true;
    flash.fader_config = Some(fader_config);
    Config {
        osc: OscConfig { host: String::from("127.0.0.1"), port: 7700 },
        pages: vec![normal, custom, xy, fader, rgbw, nudge, flash],
    }
}

fn loaded(colors: Option<&str>, fader_colors: Option<&str>) -> BridgeState {
    let mut s = BridgeState::new(
        config(),
        String::from("/x/custom_colors.json"),
        String::from("/x/rgbw_state.json"),
        colors.map(String::from),
        fader_colors.map(String::from),
        HashMap::new(),
    );
    assert_eq!(s.rgbw_states.len(), 0);
    s.ensure_rgbw_states();
    s
}

fn on_page(selector: u8) -> BridgeState {
    let mut s = loaded(None, None);
    handle_midi(&[0xB0, selector, 127], 0, &mut s);
    s
}

fn press(s: &mut BridgeState, note: u8) -> Vec<Action> {
    handle_midi(&[0x90, note, 127], 5, s)
}

fn release(s: &mut BridgeState, note: u8) -> Vec<Action> {
    handle_midi(&[0x80, note, 0], 9, s)
}

fn control(s: &mut BridgeState, number: u8, value: u8) -> Vec<Action> {
    handle_midi(&[0xB0, number, value], 7, s)
}

fn sent(address: &str, value: OscValue) -> Action {
    Action::Osc { address: String::from(address), value }
}

fn shown(message: &[u8], number: u8) -> Option<u8> {
    let mut color = None;
    for led in message[7..message.len() - 1].chunks(3) {
        assert_eq!(led[0], 0);
        if led[1] == number {
            color = Some(led[2]);
        }
    }
    color
}

fn redraw(s: &BridgeState) -> Action {
    Action::Midi { bytes: render_page(s) }
}

fn position_on(s: &BridgeState, page: usize) -> (u32, u32) {
    (
        s.nudge_pan.get(&page).copied().unwrap_or(CENTRE),
        s.nudge_tilt.get(&page).copied().unwrap_or(CENTRE),
    )
}

fn position(s: &BridgeState) -> (u32, u32) {
    position_on(s, s.current_page)
}

#[test]
fn windows_starts_on_the_first_page() {
    let s = loaded(None, None);
    assert_eq!(s.current_page, 0);
    assert_eq!(s.fader_levels, vec![0u8; 8]);
    assert_eq!(s.flash_buttons_pressed, vec![false; 8]);
    assert_eq!(s.overlay, Overlay::Closed);
    assert!(!s.color_picker_modifier_active);
    assert_eq!(s.osc_target, "127.0.0.1:7700");
    assert_eq!(s.colors_path, "/x/custom_colors.json");
    assert_eq!(s.rgbw_path, "/x/rgbw_state.json");
    assert_eq!(s.rgbw_states.len(), 1);
    assert_eq!(s.rgbw_states[&4].active_profile, 0);
    assert_eq!(s.rgbw_states[&4].profiles[6].levels, [0, 0, 0, 0]);
}

#[test]
fn windows_reads_saved_colors() {
    let s = loaded(Some("{\"1:11\": 44, \"bad\": 1}"), Some("{\"6:3\": 12}"));
    assert_eq!(s.custom_colors.len(), 1);
    assert_eq!(s.custom_button_color(1, 11), 44);
    assert_eq!(s.custom_button_color(1, 12), 21);
    assert_eq!(s.get_fader_color(6, 3), 12);
    assert_eq!(s.get_fader_color(6, 4), 60);
    assert_eq!(s.get_fader_color(0, 0), 72);
    let s = loaded(Some("nonsense"), None);
    assert_eq!(s.custom_colors.len(), 0);
    assert_eq!(s.custom_button_color(1, 11), 33);
}

#[test]
fn windows_keeps_saved_profiles() {
    let mut saved = RgbwState::default();
    saved.active_profile = 3;
    saved.profiles[3].levels = [1, 2, 3, 4];
    let mut other = RgbwState::default();
    other.active_profile = 99;
    let mut states = HashMap::new();
    states.insert(4usize, saved);
    states.insert(0usize, other);
    let mut s = BridgeState::new(
        config(),
        String::new(),
        String::new(),
        None,
        None,
        states,
    );
    s.ensure_rgbw_states();
    assert_eq!(s.rgbw_states.len(), 2);
    assert_eq!(s.rgbw_states[&4].active_profile, 3);
    assert_eq!(s.rgbw_states[&4].profiles[3].levels, [1, 2, 3, 4]);
    assert_eq!(s.rgbw_states[&0].active_profile, 99);
}

#[test]
fn windows_shows_buttons_and_the_modifier() {
    let mut s = loaded(None, None);
    let message = render_page(&s);
    assert_eq!(message.len(), 7 + 3 * (100 + 8 + 3 + 1) + 1);
    assert_eq!(shown(&message, 91), Some(72));
    assert_eq!(shown(&message, 92), Some(8));
    assert_eq!(shown(&message, 93), Some(7));
    assert_eq!(shown(&message, 98), Some(0));
    assert_eq!(shown(&message, 11), Some(21));
    assert_eq!(shown(&message, 12), Some(0));
    assert_eq!(shown(&message, 19), Some(1));
    control(&mut s, 19, 127);
    assert_eq!(shown(&render_page(&s), 19), Some(13));
    for number in 0u8..100 {
        assert!(shown(&message, number).is_some());
    }
}

#[test]
fn windows_button_sends_its_value() {
    let mut s = loaded(None, None);
    assert_eq!(press(&mut s, 11), vec![sent("/a", HALF)]);
    assert_eq!(release(&mut s, 11), vec![]);
    assert_eq!(press(&mut s, 12), vec![]);
    assert_eq!(handle_button(11, &s), vec![sent("/a", HALF)]);
    assert_eq!(handle_midi(&[0xE0, 11, 1], 0, &mut s), vec![]);
    assert_eq!(handle_midi(&[0x90], 0, &mut s), vec![]);
}

#[test]
fn windows_press_times() {
    let mut s = loaded(None, None);
    handle_midi(&[0x90, 11, 127], 100, &mut s);
    assert_eq!(s.press_times.get(&11), Some(&100));
    handle_midi(&[0x90, 11, 0], 200, &mut s);
    assert_eq!(s.press_times.get(&11), None);
    press(&mut s, 22);
    control(&mut s, XY, 127);
    assert_eq!(s.press_times.len(), 0);
}

#[test]
fn windows_custom_page_sends_on_release() {
    let mut s = on_page(CUSTOM);
    assert_eq!(press(&mut s, 11), vec![]);
    assert_eq!(release(&mut s, 11), vec![sent("/own", HALF)]);
    assert_eq!(release(&mut s, 12), vec![sent("/lp/c2", FULL)]);
    assert_eq!(release(&mut s, 88), vec![sent("/lp/c64", FULL)]);
    assert_eq!(release(&mut s, 89), vec![sent("/lp/custom/unknown", FULL)]);
    assert_eq!(handle_custom_button(21, &s), vec![sent("/lp/c9", FULL)]);
    assert_eq!(shown(&render_page(&s), 11), Some(33));
    assert_eq!(shown(&render_page(&s), 12), Some(21));
}

#[test]
fn windows_color_of_a_custom_pad() {
    let mut s = on_page(CUSTOM);
    assert_eq!(control(&mut s, 19, 127), vec![redraw(&s)]);
    assert!(s.color_picker_modifier_active);
    assert_eq!(press(&mut s, 12), vec![redraw(&s)]);
    assert_eq!(s.overlay, Overlay::ColorPicker { page_idx: 1, note: 12 });
    let message = render_page(&s);
    assert_eq!(shown(&message, 81), Some(0));
    assert_eq!(shown(&message, 82), Some(1));
    assert_eq!(shown(&message, 18), Some(63));
    assert_eq!(shown(&message, 66), Some(72));
    assert_eq!(shown(&message, 92), Some(5));
    assert_eq!(shown(&message, 91), Some(0));
    assert_eq!(shown(&message, 19), Some(13));
    assert_eq!(release(&mut s, 12), vec![]);
    assert_eq!(control(&mut s, 19, 0), vec![]);
    assert!(!s.color_picker_modifier_active);
    assert_eq!(press(&mut s, 77), vec![Action::SaveColors, redraw(&s)]);
    assert_eq!(s.overlay, Overlay::Closed);
    assert_eq!(s.custom_button_color(1, 12), 14);
    assert_eq!(s.custom_button_color(1, 13), 21);
    assert_eq!(shown(&render_page(&s), 12), Some(14));
}

#[test]
fn windows_closing_the_picker() {
    let mut s = on_page(CUSTOM);
    control(&mut s, 19, 127);
    press(&mut s, 12);
    assert_eq!(press(&mut s, 89), vec![redraw(&s)]);
    assert_eq!(s.overlay, Overlay::Closed);
    assert_eq!(s.custom_colors.len(), 0);
    press(&mut s, 12);
    assert_eq!(control(&mut s, NORMAL, 127), vec![redraw(&s)]);
    assert_eq!(s.overlay, Overlay::Closed);
    assert_eq!(s.current_page, 1);
}

#[test]
fn windows_modifier_elsewhere() {
    let mut s = loaded(None, None);
    control(&mut s, 19, 127);
    assert_eq!(press(&mut s, 11), vec![]);
    assert_eq!(s.overlay, Overlay::Closed);
    assert_eq!(control(&mut s, 19, 127), vec![redraw(&s)]);
    assert!(!s.color_picker_modifier_active);
}

#[test]
fn windows_xy_page() {
    let mut s = on_page(XY);
    assert_eq!(
        press(&mut s, 38),
        vec![
            sent("/pan", OscValue::Ratio { num: 7, den: 7 }),
            sent("/tilt", OscValue::Ratio { num: 5, den: 7 }),
            redraw(&s),
        ]
    );
    assert_eq!(s.xy_selected, Some((7, 2)));
    let message = render_page(&s);
    assert_eq!(shown(&message, 38), Some(3));
    assert_eq!(shown(&message, 37), Some(2));
    let (pan, tilt) = position(&s);
    assert_eq!(pan as f32 / 2147483648.0, 1.0);
    assert_eq!((tilt as f32 / 2147483648.0).to_bits(), (5.0f32 / 7.0).to_bits());
    assert_eq!(handle_xy(89, &mut s), vec![]);
}

#[test]
fn windows_fader_page() {
    let mut s = on_page(FADER);
    assert_eq!(
        press(&mut s, 51),
        vec![sent("/f1", OscValue::Ratio { num: 4, den: 7 }), redraw(&s)]
    );
    assert_eq!(s.fader_levels[0], 5);
    assert_eq!(shown(&render_page(&s), 51), Some(60));
    assert_eq!(shown(&render_page(&s), 61), Some(61));
    assert_eq!(press(&mut s, 51), vec![sent("/f1", ZERO), redraw(&s)]);
    assert_eq!(s.fader_levels[0], 0);
    assert_eq!(
        press(&mut s, 12),
        vec![sent("/f2", OscValue::Ratio { num: 0, den: 7 }), redraw(&s)]
    );
    assert_eq!(
        handle_fader(87, &mut s),
        vec![sent("/f7", OscValue::Ratio { num: 7, den: 7 }), redraw(&s)]
    );
    assert_eq!(press(&mut s, 18), vec![redraw(&s)]);
    assert_eq!(press(&mut s, 19), vec![]);
}

#[test]
fn windows_flash_page() {
    let mut s = on_page(FLASH);
    assert_eq!(press(&mut s, 41), vec![redraw(&s)]);
    assert_eq!(s.fader_levels[0], 3);
    assert_eq!(release(&mut s, 41), vec![]);
    assert_eq!(
        press(&mut s, 11),
        vec![sent("/f1", OscValue::Ratio { num: 2, den: 6 }), redraw(&s)]
    );
    assert!(s.flash_buttons_pressed[0]);
    let message = render_page(&s);
    assert_eq!(shown(&message, 11), Some(60));
    assert_eq!(shown(&message, 12), Some(1));
    assert_eq!(shown(&message, 21), Some(60));
    assert_eq!(shown(&message, 41), Some(60));
    assert_eq!(shown(&message, 51), Some(0));
    assert_eq!(release(&mut s, 11), vec![sent("/f1", ZERO), redraw(&s)]);
    assert!(!s.flash_buttons_pressed[0]);
    assert_eq!(s.fader_levels[0], 3);
    assert_eq!(press(&mut s, 12), vec![sent("/f2", ZERO), redraw(&s)]);
    assert_eq!(press(&mut s, 18), vec![redraw(&s)]);
    assert_eq!(press(&mut s, 41), vec![redraw(&s)]);
    assert_eq!(s.fader_levels[0], 0);
    assert_eq!(handle_flash_fader(21, false, &mut s), vec![]);
}

#[test]
fn windows_color_of_a_flash_fader() {
    let mut s = on_page(FLASH);
    control(&mut s, 19, 127);
    assert_eq!(press(&mut s, 13), vec![]);
    assert_eq!(s.overlay, Overlay::Closed);
    assert_eq!(press(&mut s, 43), vec![redraw(&s)]);
    assert_eq!(s.overlay, Overlay::FlashFaderColorPicker { page_idx: 6, col: 2 });
    assert_eq!(press(&mut s, 81), vec![Action::SaveFaderColors, redraw(&s)]);
    assert_eq!(s.get_fader_color(6, 2), 0);
    assert_eq!(s.get_fader_color(6, 3), 60);
}

#[test]
fn windows_rgbw_master_goes_to_all() {
    let mut s = on_page(RGBW);
    let ratio = OscValue::Ratio { num: 3, den: 8 };
    let actions = press(&mut s, 32);
    assert_eq!(actions.len(), 8);
    for i in 0..6usize {
        assert_eq!(actions[i], sent(&format!("/r{}", i + 1), ratio));
    }
    assert_eq!(actions[6], Action::SaveRgbw);
    assert_eq!(actions[7], redraw(&s));
    assert_eq!(s.rgbw_states[&4].profiles[0].levels, [3, 0, 0, 0]);
    let actions = press(&mut s, 88);
    assert_eq!(actions[1], sent("/w2", OscValue::Ratio { num: 8, den: 8 }));
    assert_eq!(actions.len(), 4);
    let message = render_page(&s);
    assert_eq!(shown(&message, 31), Some(5));
    assert_eq!(shown(&message, 41), Some(1));
    assert_eq!(shown(&message, 13), Some(17));
    assert_eq!(shown(&message, 15), Some(41));
    assert_eq!(shown(&message, 87), Some(72));
    assert_eq!(shown(&message, 89), Some(13));
    assert_eq!(shown(&message, 79), Some(45));
    assert_eq!(shown(&message, 19), Some(1));
    press(&mut s, 31);
    assert_eq!(s.rgbw_states[&4].profiles[0].levels, [0, 0, 0, 8]);
    assert_eq!(handle_rgbw_grid(99, &mut s), vec![]);
}

#[test]
fn windows_rgbw_profiles() {
    let mut s = on_page(RGBW);
    press(&mut s, 53);
    assert_eq!(control(&mut s, 79, 127), vec![Action::SaveRgbw, redraw(&s)]);
    assert_eq!(s.rgbw_states[&4].active_profile, 1);
    assert_eq!(s.rgbw_states[&4].profiles[1].levels, [0, 5, 0, 0]);
    assert_eq!(shown(&render_page(&s), 79), Some(13));
    assert_eq!(shown(&render_page(&s), 89), Some(72));
    assert_eq!(
        press(&mut s, 14),
        vec![sent("/g1", OscValue::Ratio { num: 1, den: 8 }), Action::SaveRgbw, redraw(&s)]
    );
    assert_eq!(s.rgbw_states[&4].profiles[0].levels, [0, 5, 0, 0]);
    assert_eq!(control(&mut s, 79, 127), vec![]);
    assert_eq!(control(&mut s, 29, 127), vec![Action::SaveRgbw, redraw(&s)]);
    assert_eq!(s.rgbw_states[&4].active_profile, 6);
    assert_eq!(press(&mut s, 17), vec![Action::SaveRgbw, redraw(&s)]);
    assert_eq!(control(&mut s, 89, 127), vec![Action::SaveRgbw, redraw(&s)]);
    assert_eq!(s.rgbw_states[&4].active_profile, 0);
    assert_eq!(s.rgbw_states[&4].profiles[1].levels, [0, 1, 0, 0]);
    assert_eq!(handle_rgbw_profile(0, &mut s), vec![]);
    assert_eq!(control(&mut s, 79, 0), vec![]);
    control(&mut s, NORMAL, 127);
    assert_eq!(control(&mut s, 79, 127), vec![]);
}

#[test]
fn windows_nudges() {
    let mut s = on_page(NUDGE);
    let quarter = nearest(ONE as u64, 4);
    let actions = press(&mut s, 41);
    assert_eq!(
        actions,
        vec![
            sent("/pan", OscValue::Position { units: CENTRE - quarter }),
            sent("/tilt", OscValue::Position { units: CENTRE }),
        ]
    );
    assert_eq!(position(&s), (CENTRE - quarter, CENTRE));
    press(&mut s, 15);
    assert_eq!(position(&s), (CENTRE - quarter, CENTRE + quarter));
    press(&mut s, 85);
    press(&mut s, 85);
    press(&mut s, 85);
    assert_eq!(position(&s).1, 0);
    let mut tilt = 0.0f32;
    for _ in 0..7 {
        press(&mut s, 34);
        tilt = (tilt + 0.05).max(0.0).min(1.0);
    }
    for _ in 0..3 {
        press(&mut s, 24);
        tilt = (tilt + 0.1).max(0.0).min(1.0);
    }
    assert_eq!((position(&s).1 as f32 / 2147483648.0).to_bits(), tilt.to_bits());
    let before = position(&s);
    for note in [11, 88, 44, 55, 63, 66, 33, 36] {
        assert_eq!(press(&mut s, note), vec![]);
    }
    assert_eq!(position(&s), before);
    assert_eq!(handle_nudge_xy(19, &mut s), vec![]);
}

#[test]
fn windows_positions_by_page() {
    let mut s = on_page(XY);
    press(&mut s, 12);
    assert_eq!(position_on(&s, 2).1, ONE);
    control(&mut s, NUDGE, 127);
    assert_eq!(position(&s), (CENTRE, CENTRE));
    press(&mut s, 83);
    let quarter = nearest(ONE as u64, 4);
    assert_eq!(position(&s), (CENTRE, CENTRE - quarter));
    assert_eq!(position_on(&s, 2).1, ONE);
    assert_eq!(s.nudge_pan.len(), 2);
    control(&mut s, NORMAL, 127);
    control(&mut s, NUDGE, 127);
    assert_eq!(position(&s), (CENTRE, CENTRE - quarter));
}

#[test]
fn windows_long_press_on_a_custom_pad() {
    let mut s = on_page(CUSTOM);
    handle_midi(&[0x90, 11, 127], 1_000, &mut s);
    let actions = handle_midi(&[0x80, 11, 0], 500_000_999, &mut s);
    assert_eq!(actions, vec![sent("/own", HALF)]);
    assert_eq!(s.overlay, Overlay::Closed);
    handle_midi(&[0x90, 11, 127], 1_000, &mut s);
    let actions = handle_midi(&[0x80, 11, 0], 500_001_000, &mut s);
    assert_eq!(actions, vec![redraw(&s)]);
    assert_eq!(s.overlay, Overlay::ColorPicker { page_idx: 1, note: 11 });
    assert_eq!(s.press_times.len(), 0);
}

#[test]
fn windows_long_press_on_a_flash_fader() {
    let mut s = on_page(FLASH);
    handle_midi(&[0x90, 21, 127], 0, &mut s);
    assert_eq!(handle_midi(&[0x80, 21, 0], 499_999_999, &mut s), vec![]);
    assert_eq!(s.overlay, Overlay::Closed);
    handle_midi(&[0x90, 23, 127], 0, &mut s);
    assert_eq!(handle_midi(&[0x80, 23, 0], 600_000_000, &mut s), vec![redraw(&s)]);
    assert_eq!(s.overlay, Overlay::FlashFaderColorPicker { page_idx: 6, col: 2 });
    let mut s = on_page(FLASH);
    handle_midi(&[0x90, 11, 127], 0, &mut s);
    assert_eq!(
        handle_midi(&[0x80, 11, 0], 600_000_000, &mut s),
        vec![sent("/f1", ZERO), redraw(&s)]
    );
    assert_eq!(s.overlay, Overlay::Closed);
}

#[test]
fn windows_profiles_that_do_not_exist() {
    let mut saved = RgbwState::default();
    saved.active_profile = 7;
    let mut states = HashMap::new();
    states.insert(4usize, saved);
    let mut s = BridgeState::new(config(), String::new(), String::new(), None, None, states);
    s.ensure_rgbw_states();
    assert!(s.can_show_page(0));
    assert!(!s.can_show_page(4));
    assert!(s.can_show_page(99));
    assert!(!can_handle(&[0xB0, RGBW, 127], &s));
    assert!(can_handle(&[0xB0, RGBW, 0], &s));
    assert!(can_handle(&[0xB0, FADER, 127], &s));
    assert!(can_handle(&[0x90, RGBW, 127], &s));
    control(&mut s, FADER, 127);
    assert_eq!(s.current_page, 3);
}

#[test]
fn windows_nudge_page_without_addresses() {
    let mut s = on_page(NUDGE);
    s.config.pages[5].xy_config = None;
    assert_eq!(press(&mut s, 41), vec![]);
    assert_eq!(position(&s), (CENTRE, CENTRE));
    assert_eq!(press(&mut s, 11), vec![]);
    assert_eq!(shown(&render_page(&s), 41), Some(0));
}

#[test]
fn windows_nudge_layout() {
    let rows: [[u8; 8]; 8] = [
        [1, 1, 45, 45, 45, 45, 1, 1],
        [1, 1, 53, 53, 53, 53, 1, 1],
        [45, 53, 1, 72, 72, 1, 53, 45],
        [45, 53, 72, 1, 1, 72, 53, 45],
        [45, 53, 72, 1, 1, 72, 53, 45],
        [45, 53, 1, 72, 72, 1, 53, 45],
        [1, 1, 53, 53, 53, 53, 1, 1],
        [1, 1, 45, 45, 45, 45, 1, 1],
    ];
    for row in 0u8..8 {
        for col in 0u8..8 {
            let color = rows[7 - row as usize][col as usize];
            assert_eq!(nudge_color_for_cell(col, row), color);
            assert_eq!(nudge_from_position(col, row).is_none(), color == 1);
        }
    }
    let coarse = nearest(ONE as u64, 4) as i64;
    let medium = nearest(ONE as u64, 10) as i64;
    let fine = nearest(ONE as u64, 20) as i64;
    assert_eq!(nudge_from_position(7, 4), Some((coarse, 0)));
    assert_eq!(nudge_from_position(6, 4), Some((medium, 0)));
    assert_eq!(nudge_from_position(5, 4), Some((fine, 0)));
    assert_eq!(nudge_from_position(8, 3), None);
    assert_eq!(nudge_from_position(3, 255), None);
    assert_eq!(nudge_from_position(6, 5), Some((medium, 0)));
    assert_eq!(nudge_from_position(1, 2), Some((-medium, 0)));
    assert_eq!(nudge_from_position(3, 6), Some((0, -medium)));
    assert_eq!(nudge_from_position(3, 1), Some((0, medium)));
}

#[test]
fn windows_palette() {
    assert_eq!(picker_color_for_cell(0, 7), 0);
    assert_eq!(picker_color_for_cell(1, 7), 1);
    assert_eq!(picker_color_for_cell(0, 6), 8);
    assert_eq!(picker_color_for_cell(7, 0), 63);
    assert_eq!(picker_cell_for_color(0), Some((0, 7)));
    assert_eq!(picker_cell_for_color(1), Some((1, 7)));
    assert_eq!(picker_cell_for_color(63), Some((7, 0)));
    assert_eq!(picker_cell_for_color(64), Some((7, 0)));
    for color in 0u8..64 {
        match picker_cell_for_color(color) {
            Some((col, row)) => assert_eq!(picker_color_for_cell(col, row), color),
            None => panic!("no cell"),
        }
    }
    assert_eq!(picker_cell_for_color(65), None);
}

#[test]
fn windows_page_switch_keeps_colors_and_profiles() {
    let mut s = on_page(RGBW);
    press(&mut s, 32);
    control(&mut s, FADER, 127);
    press(&mut s, 51);
    control(&mut s, NORMAL, 127);
    assert_eq!(s.fader_levels, vec![0u8; 8]);
    assert_eq!(s.rgbw_states[&4].profiles[0].levels, [3, 0, 0, 0]);
    assert_eq!(control(&mut s, 98, 127), vec![]);
    assert_eq!(s.current_page, 0);
}

#[test]
fn windows_nudges_are_symmetric() {
    for row in 0u8..8 {
        for col in 0u8..8 {
            match (nudge_from_position(col, row), nudge_from_position(7 - col, 7 - row)) {
                (Some((pan, tilt)), Some((other_pan, other_tilt))) => {
                    assert_eq!((pan, tilt), (-other_pan, -other_tilt));
                }
                (None, None) => {}
                _ => panic!("not symmetric"),
            }
        }
    }
}

#[test]
fn windows_rgbw_levels() {
    let mut rgbw = RgbwState::default();
    rgbw.set_level(2, 7);
    assert_eq!(rgbw.profiles[0].levels, [0, 0, 7, 0]);
    rgbw.select_profile(4);
    assert_eq!(rgbw.profiles[4].levels, [0, 0, 7, 0]);
    assert_eq!(rgbw.profiles[3].levels, [0, 0, 0, 0]);
    rgbw.set_level(2, 1);
    rgbw.select_profile(0);
    assert_eq!(rgbw.profiles[0].levels, [0, 0, 7, 0]);
    assert_eq!(rgbw.profiles[4].levels, [0, 0, 1, 0]);
    assert_eq!(rgbw.active_profile, 0);
}

#[test]
fn windows_values_are_between_0_and_1() {
    for selector in [NORMAL, CUSTOM, XY, FADER, RGBW, NUDGE, FLASH] {
        let mut s = on_page(selector);
        for note in 0u8..=127 {
            let mut actions = press(&mut s, note);
            actions.extend(release(&mut s, note));
            for action in actions {
                if let Action::Osc { value, .. } = action {
                    match value {
                        OscValue::Ratio { num, den } => assert!(0 < den && num <= den),
                        OscValue::Position { units } => assert!(units <= ONE),
                        OscValue::Configured { .. } => assert_eq!(value, HALF),
                    }
                }
            }
        }
    }
}

fn rgbw_only(states: HashMap<usize, RgbwState>) -> BridgeState {
    let mut rgbw = page("rgbw", 9);
    rgbw.rgbw_mode = true;
    rgbw.rgbw_config = Some(RgbwConfig {
        r_addresses: names("/r", 2),
        g_addresses: vec![],
        b_addresses: vec![],
        w_addresses: vec![],
    });
    BridgeState::new(
        Config {
            osc: OscConfig { host: String::from("127.0.0.1"), port: 7700 },
            pages: vec![rgbw],
        },
        String::from("c"),
        String::from("r"),
        None,
        None,
        states,
    )
}

#[test]
fn windows_rgbw_pad_makes_missing_profiles() {
    let mut s = rgbw_only(HashMap::new());
    assert_eq!(handle_rgbw_grid(19, &mut s), vec![]);
    assert_eq!(s.rgbw_states.len(), 0);
    for level in [3u8, 0] {
        let value = OscValue::Ratio { num: level, den: 8 };
        assert_eq!(
            handle_rgbw_grid(31, &mut s),
            vec![sent("/r1", value), sent("/r2", value), Action::SaveRgbw, redraw(&s)]
        );
        assert_eq!(s.rgbw_states[&0].profiles[0].levels, [level, 0, 0, 0]);
        for profile in 1..7usize {
            assert_eq!(s.rgbw_states[&0].profiles[profile].levels, [0, 0, 0, 0]);
        }
        assert_eq!(s.rgbw_states[&0].active_profile, 0);
    }
}

#[test]
fn windows_profile_button_works_from_any_profile() {
    let mut saved = RgbwState::default();
    saved.active_profile = 99;
    saved.profiles[0].levels = [1, 2, 3, 4];
    let mut states = HashMap::new();
    states.insert(0usize, saved);
    let mut s = rgbw_only(states);
    assert_eq!(handle_rgbw_profile(0, &mut s), vec![]);
    assert_eq!(handle_rgbw_profile(6, &mut s), vec![Action::SaveRgbw, redraw(&s)]);
    assert_eq!(s.rgbw_states[&0].active_profile, 1);
    assert_eq!(s.rgbw_states[&0].profiles[1].levels, [1, 2, 3, 4]);
    let mut s = rgbw_only(HashMap::new());
    assert_eq!(handle_rgbw_profile(7, &mut s), vec![]);
    assert_eq!(s.rgbw_states[&0].active_profile, 0);
}

#[test]
fn windows_fader_on_a_flash_page() {
    let mut s = on_page(FLASH);
    assert_eq!(
        handle_fader(81, &mut s),
        vec![sent("/f1", OscValue::Ratio { num: 7, den: 7 }), redraw(&s)]
    );
    assert_eq!(s.fader_levels[0], 8);
    assert_eq!(handle_fader(81, &mut s), vec![sent("/f1", ZERO), redraw(&s)]);
}
