use launchpad_qlc::actions::{Action, OscValue};
use launchpad_qlc::config::{OscConfig, XyConfig};
use launchpad_qlc::paps::beat::{BeatConfig, BeatState, Tempo};
use launchpad_qlc::paps::handle::{
    beat_tempo, beat_tick, handle_button, handle_custom_button, handle_fader, handle_flash_off,
    handle_flash_on, handle_midi, handle_move, handle_rgb_on, handle_xy,
};
use launchpad_qlc::paps::leds::set_single_led;
use launchpad_qlc::paps::picker::{picker_cell_for_color, picker_color_for_cell};
use launchpad_qlc::paps::render::{render_color_picker, render_page};
use launchpad_qlc::paps::state::{
    default_bpm, default_color_on, default_osc_value, BridgeState, ButtonConfig, Config, FaderConfig,
    Overlay, PageConfig, XyAdjustMode,
};

const ON: OscValue = OscValue::Configured { bits: 0x3F80_0000 };
const OFF: OscValue = OscValue::Configured { bits: 0 };
const ZERO: OscValue = OscValue::Ratio { num: 0, den: 1 };

const RGB: u8 = 91;
const FLASH: u8 = 92;
const MOVE: u8 = 93;
const BEAT: u8 = 94;
const XY: u8 = 95;
const FADER: u8 = 96;
const CUSTOM: u8 = 97;
const NORMAL: u8 = 98;

const MS: u64 = 1_000_000;

fn page(name: &str, selector_color: u8) -> PageConfig {
    PageConfig {
        name: String::from(name),
        selector_color,
        buttons: vec![],
        rgb_mode: false,
        flash_mode: false,
        move_mode: false,
        beat_mode: false,
        xy_mode: false,
        fader_mode: false,
        custom_mode: false,
        xy_config: None,
        fader_config: None,
        beat_config: None,
    }
}

fn buttons() -> Vec<ButtonConfig> {
    vec![
        ButtonConfig {
            note: 11,
            label: String::from("one"),
            osc_address: String::from("/one"),
            osc_value: ON,
            osc_value_off: OFF,
            color_on: 21,
            color_off: 1,
        },
        ButtonConfig {
            note: 12,
            label: String::from("two"),
            osc_address: String::from("/two"),
            osc_value: ON,
            osc_value_off: OFF,
            color_on: 45,
            color_off: 2,
        },
    ]
}

fn beat_config() -> BeatConfig {
    BeatConfig {
        rgb_addresses: vec![
            String::from("/rgb1"),
            String::from("/rgb2"),
            String::from("/rgb3"),
        ],
        default_bpm: 120.0f32.to_bits(),
        palettes: vec![vec![5, 127], vec![21]],
    }
}

fn state() -> BridgeState {
    let mut rgb = page("rgb", 3);
    rgb.rgb_mode = true;
    rgb.buttons = buttons();
    let mut flash = page("flash", 4);
    flash.flash_mode = true;
    flash.buttons = buttons();
    let mut moves = page("move", 5);
    moves.move_mode = true;
    moves.buttons = buttons();
    let mut beat = page("beat", 6);
    beat.beat_mode = true;
    beat.beat_config = Some(beat_config());
    let mut xy = page("xy", 7);
    xy.xy_mode = true;
    xy.xy_config = Some(XyConfig {
        pan_address: String::from("/pan"),
        tilt_address: String::from("/tilt"),
        color_inactive: 2,
        color_active: 3,
    });
    let mut fader = page("fader", 8);
    fader.fader_mode = true;
    fader.fader_config = Some(FaderConfig {
        addresses: (1..=7).map(|i| format!("/f{}", i)).collect(),
        color_halogen_on: 60,
        color_halogen_off: 61,
        color_rgb_on: 62,
        color_rgb_off: 63,
    });
    let mut custom = page("custom", 9);
    custom.custom_mode = true;
    custom.buttons = buttons();
    let mut normal = page("normal", 10);
    normal.buttons = buttons();
    BridgeState::new(Config {
        osc: OscConfig { host: String::from("127.0.0.1"), port: 7700 },
        pages: vec![rgb, flash, moves, beat, xy, fader, custom, normal],
    })
}

fn on_page(selector: u8) -> BridgeState {
    let mut s = state();
    handle_midi(&[0xB0, selector, 127], 0, &mut s);
    s
}

fn press(s: &mut BridgeState, note: u8) -> Vec<Action> {
    handle_midi(&[0x90, note, 127], 0, s)
}

fn release(s: &mut BridgeState, note: u8) -> Vec<Action> {
    handle_midi(&[0x80, note, 0], 0, s)
}

fn control(s: &mut BridgeState, number: u8, value: u8) -> Vec<Action> {
    handle_midi(&[0xB0, number, value], 0, s)
}

fn sent(address: &str, value: OscValue) -> Action {
    Action::Osc { address: String::from(address), value }
}

fn light(note: u8, color: u8) -> Action {
    Action::Midi { bytes: set_single_led(note, color) }
}

fn redraw(s: &BridgeState) -> Action {
    Action::Midi { bytes: render_page(s) }
}

fn shown(message: &[u8], number: u8) -> Option<u8> {
    let mut color = None;
    for led in message[7..message.len() - 1].chunks(3) {
        assert_eq!(led[0], if 91 <= led[1] && led[1] <= 98 { 1 } else { 0 });
        if led[1] == number {
            color = Some(led[2]);
        }
    }
    color
}

fn intervals(tempo: &Tempo) -> Vec<u64> {
    match tempo {
        Tempo::Tapped { intervals } => intervals.clone(),
        Tempo::Configured { .. } => panic!("not tapped"),
    }
}

#[test]
fn paps_starts_on_the_first_page() {
    let s = state();
    assert_eq!(s.current_page, 0);
    assert_eq!(s.fader_levels, vec![0u8; 8]);
    assert_eq!(s.xy_selected, None);
    assert_eq!(s.xy_adjust_mode, XyAdjustMode::Coarse);
    assert_eq!(s.xy_fine_step, 1);
    assert!(s.beat_state.is_none());
    assert_eq!(s.overlay, Overlay::Closed);
    assert_eq!(s.custom_colors.len(), 0);
    assert_eq!(s.osc_target, "127.0.0.1:7700");
}

#[test]
fn paps_defaults() {
    assert_eq!(default_color_on(), 72);
    assert_eq!(default_bpm(), 120);
    assert_eq!(default_osc_value(), OscValue::Ratio { num: 1, den: 1 });
}

#[test]
fn paps_selectors_and_right_column() {
    let s = state();
    let message = render_page(&s);
    assert_eq!(shown(&message, 91), Some(72));
    assert_eq!(shown(&message, 92), Some(4));
    assert_eq!(shown(&message, 98), Some(10));
    for number in [19, 29, 39, 49, 59, 69, 79, 89] {
        assert_eq!(shown(&message, number), Some(0));
    }
    let message = render_page(&on_page(BEAT));
    assert_eq!(shown(&message, 59), Some(5));
    assert_eq!(shown(&message, 49), Some(57));
    assert_eq!(shown(&message, 39), Some(53));
    assert_eq!(shown(&message, 89), Some(0));
    assert_eq!(shown(&message, 19), Some(0));
    assert_eq!(shown(&message, 15), Some(96));
    assert_eq!(shown(&message, 25), Some(0));
}

#[test]
fn paps_rgb_page() {
    let mut s = on_page(RGB);
    assert_eq!(shown(&render_page(&s), 11), Some(1));
    assert_eq!(shown(&render_page(&s), 13), None);
    assert_eq!(press(&mut s, 11), vec![sent("/one", ON), light(11, 21)]);
    assert_eq!(s.rgb_states.get(&11), Some(&true));
    assert_eq!(shown(&render_page(&s), 11), Some(21));
    assert_eq!(shown(&render_page(&s), 12), Some(2));
    assert_eq!(release(&mut s, 11), vec![]);
    assert_eq!(press(&mut s, 11), vec![sent("/one", OFF), light(11, 1)]);
    assert_eq!(s.rgb_states.get(&11), Some(&false));
    assert_eq!(handle_rgb_on(13, &mut s), vec![]);
    press(&mut s, 12);
    control(&mut s, RGB, 127);
    assert_eq!(s.rgb_states.len(), 0);
}

#[test]
fn paps_flash_page() {
    let mut s = on_page(FLASH);
    assert_eq!(shown(&render_page(&s), 11), Some(21));
    assert_eq!(press(&mut s, 11), vec![sent("/one", ON), light(11, 72)]);
    assert_eq!(release(&mut s, 11), vec![sent("/one", OFF), light(11, 21)]);
    assert_eq!(press(&mut s, 55), vec![]);
    assert_eq!(release(&mut s, 55), vec![]);
    assert_eq!(handle_flash_on(12, &s), vec![sent("/two", ON), light(12, 72)]);
    assert_eq!(handle_flash_off(12, &s), vec![sent("/two", OFF), light(12, 45)]);
    assert_eq!(release(&mut s, 89), vec![]);
}

#[test]
fn paps_move_and_normal_pages() {
    let mut s = on_page(MOVE);
    assert_eq!(press(&mut s, 11), vec![sent("/one", ON)]);
    assert_eq!(release(&mut s, 11), vec![]);
    assert_eq!(handle_move(12, &s), vec![sent("/two", ON)]);
    control(&mut s, NORMAL, 127);
    assert_eq!(press(&mut s, 12), vec![sent("/two", ON)]);
    assert_eq!(release(&mut s, 12), vec![]);
    assert_eq!(press(&mut s, 19), vec![]);
    assert_eq!(handle_button(13, &s), vec![]);
}

#[test]
fn paps_xy_page() {
    let mut s = on_page(XY);
    assert_eq!(
        press(&mut s, 38),
        vec![
            sent("/pan", OscValue::Ratio { num: 7, den: 7 }),
            sent("/tilt", OscValue::Ratio { num: 5, den: 7 }),
            redraw(&s),
        ]
    );
    assert_eq!(s.xy_selected, Some((7, 2)));
    assert_eq!(shown(&render_page(&s), 38), Some(3));
    assert_eq!(shown(&render_page(&s), 37), Some(2));
    assert_eq!(handle_xy(9, &mut s), vec![]);
}

#[test]
fn paps_fine_and_coarse() {
    let mut s = on_page(XY);
    assert_eq!(shown(&render_page(&s), 89), Some(21));
    assert_eq!(shown(&render_page(&s), 79), Some(0));
    assert_eq!(press(&mut s, 79), vec![]);
    assert_eq!(s.xy_fine_step, 1);
    assert_eq!(press(&mut s, 89), vec![redraw(&s)]);
    assert_eq!(s.xy_adjust_mode, XyAdjustMode::Fine);
    let message = render_page(&s);
    assert_eq!(shown(&message, 89), Some(13));
    assert_eq!(shown(&message, 79), Some(45));
    assert_eq!(shown(&message, 69), Some(45));
    assert_eq!(shown(&message, 59), Some(0));
    for expected in [2u8, 3, 4, 4] {
        assert_eq!(press(&mut s, 79), vec![]);
        assert_eq!(s.xy_fine_step, expected);
    }
    for expected in [3u8, 2, 1, 1] {
        assert_eq!(press(&mut s, 69), vec![]);
        assert_eq!(s.xy_fine_step, expected);
    }
    assert_eq!(press(&mut s, 59), vec![]);
    press(&mut s, 79);
    press(&mut s, 89);
    assert_eq!(s.xy_adjust_mode, XyAdjustMode::Coarse);
    press(&mut s, 69);
    assert_eq!(s.xy_fine_step, 2);
    control(&mut s, RGB, 127);
    assert_eq!(s.xy_fine_step, 2);
}

#[test]
fn paps_fader_page() {
    let mut s = on_page(FADER);
    assert_eq!(
        press(&mut s, 35),
        vec![sent("/f5", OscValue::Ratio { num: 3, den: 8 }), redraw(&s)]
    );
    let message = render_page(&s);
    assert_eq!(shown(&message, 35), Some(62));
    assert_eq!(shown(&message, 45), Some(63));
    assert_eq!(shown(&message, 11), Some(61));
    press(&mut s, 14);
    assert_eq!(shown(&render_page(&s), 14), Some(60));
    assert_eq!(
        press(&mut s, 35),
        vec![sent("/f5", OscValue::Ratio { num: 0, den: 8 }), redraw(&s)]
    );
    assert_eq!(s.fader_levels, vec![0, 0, 0, 1, 0, 0, 0, 0]);
    assert_eq!(press(&mut s, 88), vec![redraw(&s)]);
    assert_eq!(handle_fader(90, &mut s), vec![]);
}

#[test]
fn paps_short_press_sends() {
    let mut s = on_page(CUSTOM);
    assert_eq!(handle_midi(&[0x90, 11, 127], 1000 * MS, &mut s), vec![]);
    assert_eq!(handle_midi(&[0x80, 11, 0], 1500 * MS - 1, &mut s), vec![sent("/one", ON)]);
    let one = OscValue::Ratio { num: 1, den: 1 };
    assert_eq!(release(&mut s, 21), vec![sent("/qlc/custom/9", one)]);
    assert_eq!(release(&mut s, 99), vec![sent("/qlc/custom/0", one)]);
    assert_eq!(handle_custom_button(88, &s), vec![sent("/qlc/custom/64", one)]);
    assert_eq!(release(&mut s, 19), vec![]);
    assert_eq!(s.overlay, Overlay::Closed);
    assert_eq!(shown(&render_page(&s), 11), Some(21));
    assert_eq!(shown(&render_page(&s), 21), Some(0));
}

#[test]
fn paps_long_press_opens_the_picker() {
    let mut s = on_page(CUSTOM);
    handle_midi(&[0x90, 21, 127], 1000 * MS, &mut s);
    let actions = handle_midi(&[0x80, 21, 0], 1500 * MS, &mut s);
    assert_eq!(actions, vec![Action::Midi { bytes: render_color_picker() }]);
    assert_eq!(s.overlay, Overlay::ColorPicker { page_idx: 6, note: 21 });
    let message = render_page(&s);
    assert_eq!(shown(&message, 81), Some(1));
    assert_eq!(shown(&message, 18), Some(64));
    assert_eq!(shown(&message, 91), None);
    assert_eq!(press(&mut s, 82), vec![redraw(&s)]);
    assert_eq!(s.overlay, Overlay::Closed);
    assert_eq!(s.custom_button_color(6, 21), 2);
    assert_eq!(s.custom_button_color(6, 22), 0);
    assert_eq!(shown(&render_page(&s), 21), Some(2));
}

#[test]
fn paps_closing_the_picker() {
    let mut s = on_page(CUSTOM);
    s.overlay = Overlay::ColorPicker { page_idx: 6, note: 21 };
    assert_eq!(control(&mut s, RGB, 127), vec![redraw(&s)]);
    assert_eq!(s.overlay, Overlay::Closed);
    assert_eq!(s.current_page, 6);
    s.overlay = Overlay::ColorPicker { page_idx: 6, note: 21 };
    assert_eq!(press(&mut s, 89), vec![redraw(&s)]);
    assert_eq!(s.custom_colors.len(), 0);
}

#[test]
fn paps_page_switch() {
    let mut s = on_page(FADER);
    press(&mut s, 35);
    let actions = control(&mut s, XY, 127);
    assert_eq!(actions, vec![redraw(&s)]);
    assert_eq!(s.fader_levels, vec![0u8; 8]);
    press(&mut s, 11);
    control(&mut s, XY, 127);
    assert_eq!(s.xy_selected, None);
    assert_eq!(control(&mut s, RGB, 0), vec![]);
    assert_eq!(control(&mut s, 19, 127), vec![]);
    assert_eq!(s.current_page, 4);
    s.config.pages.pop();
    assert_eq!(control(&mut s, NORMAL, 127), vec![]);
}

#[test]
fn paps_beat_page_starts_a_chase() {
    let mut s = state();
    let actions = control(&mut s, BEAT, 127);
    assert_eq!(actions, vec![Action::StartBeat { epoch: 1 }, redraw(&s)]);
    assert_eq!(s.beat_epoch, 1);
    assert_eq!(press(&mut s, 11), vec![]);
    let actions = control(&mut s, BEAT, 127);
    assert_eq!(actions[0], Action::StartBeat { epoch: 2 });
    assert_eq!(beat_tick(1, &mut s), None);
    assert!(beat_tick(2, &mut s).is_some());
    control(&mut s, RGB, 127);
    assert!(s.beat_state.is_none());
    assert_eq!(beat_tick(2, &mut s), None);
    assert!(beat_tempo(2, &s).is_none());
    s.config.pages[3].beat_config = None;
    assert_eq!(control(&mut s, BEAT, 127), vec![redraw(&s)]);
    assert_eq!(beat_tick(2, &mut s), None);
    for event in [[0x90u8, 59, 127], [0x80, 59, 0], [0xB0, RGB, 127], [0xB0, BEAT, 127]] {
        handle_midi(&event, 0, &mut s);
        assert_eq!(beat_tick(1, &mut s), None);
        assert_eq!(beat_tick(2, &mut s), None);
    }
}

#[test]
fn paps_chase_lights_fixtures_in_turn() {
    let mut s = on_page(BEAT);
    let full = OscValue::Ratio { num: 1, den: 1 };
    for beat in 0..7usize {
        let lit = beat % 3;
        let expected: Vec<Action> = (0..3)
            .map(|i| sent(&format!("/rgb{}", i + 1), if i == lit { full } else { ZERO }))
            .collect();
        assert_eq!(s.beat_state.as_ref().map(|b| b.step), Some(beat % 2));
        assert_eq!(beat_tick(1, &mut s), Some(expected));
    }
}

#[test]
fn paps_palettes_go_round() {
    let mut s = on_page(BEAT);
    assert_eq!(press(&mut s, 49), vec![]);
    assert_eq!(s.beat_state.as_ref().map(|b| b.active_palette().to_vec()), Some(vec![21]));
    press(&mut s, 49);
    assert_eq!(s.beat_state.as_ref().map(|b| b.palette_idx), Some(0));
    press(&mut s, 39);
    assert_eq!(s.beat_state.as_ref().map(|b| b.palette_idx), Some(1));
    press(&mut s, 39);
    assert_eq!(s.beat_state.as_ref().map(|b| b.palette_idx), Some(0));
    press(&mut s, 29);
    assert_eq!(s.beat_state.as_ref().map(|b| b.palette_idx), Some(0));
}

#[test]
fn paps_chase_without_palettes() {
    let mut beat = BeatState::new(&BeatConfig {
        rgb_addresses: vec![String::from("/x")],
        default_bpm: 0,
        palettes: vec![],
    });
    assert_eq!(beat.active_palette().len(), 0);
    beat.next_palette();
    beat.previous_palette();
    assert_eq!(beat.palette_idx, 0);
    assert_eq!(beat.next_step_color(), 0);
    assert_eq!(beat.tick(), vec![sent("/x", OscValue::Ratio { num: 1, den: 1 })]);
    let mut silent = BeatState::new(&BeatConfig {
        rgb_addresses: vec![],
        default_bpm: 0,
        palettes: vec![vec![]],
    });
    assert_eq!(silent.tick(), vec![]);
    assert_eq!(silent.step, 0);
}

#[test]
fn paps_steps_go_round() {
    let mut beat = BeatState::new(&beat_config());
    assert_eq!(beat.active_palette(), &[5, 127]);
    assert_eq!(beat.next_step_color(), 5);
    assert_eq!(beat.next_step_color(), 127);
    assert_eq!(beat.next_step_color(), 5);
    beat.next_palette();
    assert_eq!(beat.active_palette(), &[21]);
    assert_eq!(beat.next_step_color(), 21);
    assert_eq!(beat.step, 0);
}

#[test]
fn paps_tap_tempo() {
    let mut s = on_page(BEAT);
    match beat_tempo(1, &s) {
        Some(Tempo::Configured { bits }) => assert_eq!(f32::from_bits(*bits), 120.0),
        _ => panic!("no tempo"),
    }
    handle_midi(&[0x90, 59, 127], 1000 * MS, &mut s);
    assert!(matches!(beat_tempo(1, &s), Some(Tempo::Configured { .. })));
    handle_midi(&[0x90, 59, 127], 1500 * MS, &mut s);
    handle_midi(&[0x90, 59, 127], 2100 * MS, &mut s);
    match beat_tempo(1, &s) {
        Some(tempo) => assert_eq!(intervals(tempo), vec![500 * MS, 600 * MS]),
        None => panic!("no tempo"),
    }
}

#[test]
fn paps_tempo_follows_four_taps() {
    let mut beat = BeatState::new(&beat_config());
    for time in [0u64, 100, 300, 600, 1000, 1500] {
        beat.tap(time * MS);
    }
    assert_eq!(beat.taps, vec![300 * MS, 600 * MS, 1000 * MS, 1500 * MS]);
    assert_eq!(intervals(&beat.tempo), vec![300 * MS, 400 * MS, 500 * MS]);
}

#[test]
fn paps_old_taps_are_forgotten() {
    let mut beat = BeatState::new(&beat_config());
    beat.tap(0);
    beat.tap(2999 * MS);
    assert_eq!(intervals(&beat.tempo), vec![2999 * MS]);
    beat.tap(5999 * MS);
    assert_eq!(beat.taps, vec![5999 * MS]);
    assert_eq!(intervals(&beat.tempo), vec![2999 * MS]);
    beat.tap(6999 * MS);
    assert_eq!(intervals(&beat.tempo), vec![1000 * MS]);
}

#[test]
fn paps_palette() {
    assert_eq!(picker_color_for_cell(0, 7), 1);
    assert_eq!(picker_color_for_cell(7, 7), 8);
    assert_eq!(picker_color_for_cell(0, 6), 9);
    assert_eq!(picker_color_for_cell(7, 0), 64);
    assert_eq!(picker_cell_for_color(0), None);
    assert_eq!(picker_cell_for_color(65), None);
    for color in 1u8..=64 {
        match picker_cell_for_color(color) {
            Some((col, row)) => assert_eq!(picker_color_for_cell(col, row), color),
            None => panic!("no cell"),
        }
    }
}

#[test]
fn paps_press_times() {
    let mut s = on_page(RGB);
    handle_midi(&[0x90, 11, 127], 77, &mut s);
    assert_eq!(s.press_times.get(&11), Some(&77));
    control(&mut s, FLASH, 127);
    assert_eq!(s.press_times.get(&11), Some(&77));
    handle_midi(&[0x90, 11, 0], 88, &mut s);
    assert_eq!(s.press_times.get(&11), None);
    assert_eq!(handle_midi(&[0xA0, 11, 1], 0, &mut s), vec![]);
    assert_eq!(handle_midi(&[0x90, 11], 0, &mut s), vec![]);
}

#[test]
fn paps_values_are_between_0_and_1() {
    for selector in [RGB, FLASH, MOVE, BEAT, XY, FADER, CUSTOM, NORMAL] {
        let mut s = on_page(selector);
        for note in 0u8..=127 {
            let mut actions = press(&mut s, note);
            actions.extend(release(&mut s, note));
            actions.extend(beat_tick(s.beat_epoch, &mut s).unwrap_or_default());
            for action in actions {
                if let Action::Osc { value, .. } = action {
                    match value {
                        OscValue::Ratio { num, den } => assert!(0 < den && num <= den),
                        OscValue::Position { .. } => panic!("no position"),
                        OscValue::Configured { .. } => assert!(value == ON || value == OFF),
                    }
                }
            }
        }
    }
}
