use launchpad_qlc::actions::{Action, OscValue};
use launchpad_qlc::config::{ButtonConfig, FaderConfig, OscConfig, XyConfig};
use launchpad_qlc::connect::{
    handle_button, handle_fader, handle_midi, handle_xy, render_page, BridgeState, Config,
    PageConfig,
};

const HALF: OscValue = OscValue::Configured { bits: 0x3F00_0000 };

fn page(name: &str, selector_color: u8) -> PageConfig {
    PageConfig {
        name: String::from(name),
        selector_color,
        buttons: vec![],
        xy_mode: false,
        fader_mode: false,
        xy_config: None,
        fader_config: None,
    }
}

fn button(note: u8, color: u8, address: &str) -> ButtonConfig {
    ButtonConfig {
        note,
        label: String::from("label"),
        color,
        osc_address: String::from(address),
        osc_value: HALF,
    }
}

fn state() -> BridgeState {
    let mut buttons = page("buttons", 5);
    buttons.buttons = vec![button(11, 21, "/a"), button(88, 45, "/b"), button(11, 9, "/c")];
    let mut xy = page("xy", 13);
    xy.xy_mode = true;
    xy.xy_config = Some(XyConfig {
        pan_address: String::from("/pan"),
        tilt_address: String::from("/tilt"),
        color_inactive: 1,
        color_active: 3,
    });
    let mut fader = page("fader", 21);
    fader.fader_mode = true;
    fader.fader_config = Some(FaderConfig {
        addresses: vec![String::from("/f1"), String::from("/f2")],
        color_on: 60,
        color_off: 61,
    });
    BridgeState::new(Config {
        osc: OscConfig { host: String::from("127.0.0.1"), port: 7700 },
        pages: vec![buttons, xy, fader],
    })
}

fn sent(address: &str, value: OscValue) -> Action {
    Action::Osc { address: String::from(address), value }
}

fn shown(message: &[u8], number: u8) -> Option<u8> {
    let mut color = None;
    for led in message[7..message.len() - 1].chunks(3) {
        assert_eq!(led[0], 0);
        if led[1] == number {
            color = Some(led[2]);
        }
    }
    color
}

fn frame(action: &Action) -> Vec<u8> {
    match action {
        Action::Midi { bytes } => bytes.clone(),
        _ => panic!("no frame"),
    }
}

#[test]
fn connect_starts_on_the_first_page() {
    let s = state();
    assert_eq!(s.current_page, 0);
    assert_eq!(s.fader_levels, vec![0u8; 8]);
    assert_eq!(s.xy_selected, None);
    assert_eq!(s.osc_target, "127.0.0.1:7700");
}

#[test]
fn connect_shows_buttons_and_selectors() {
    let message = render_page(&state());
    assert_eq!(message.len(), 7 + 3 * (100 + 8 + 3) + 1);
    assert_eq!(shown(&message, 91), Some(72));
    assert_eq!(shown(&message, 92), Some(13));
    assert_eq!(shown(&message, 93), Some(21));
    assert_eq!(shown(&message, 94), Some(0));
    assert_eq!(shown(&message, 11), Some(9));
    assert_eq!(shown(&message, 88), Some(45));
    assert_eq!(shown(&message, 12), Some(0));
    for number in 0u8..100 {
        assert!(shown(&message, number).is_some());
    }
    assert_eq!(shown(&message, 100), None);
}

#[test]
fn connect_button_sends_its_value() {
    let mut s = state();
    assert_eq!(handle_midi(&[0x90, 11, 127], &mut s), vec![sent("/a", HALF)]);
    assert_eq!(handle_button(88, &s), vec![sent("/b", HALF)]);
    assert_eq!(handle_midi(&[0x90, 12, 127], &mut s), vec![]);
    assert_eq!(handle_midi(&[0x90, 11, 0], &mut s), vec![]);
    assert_eq!(handle_midi(&[0x80, 11, 64], &mut s), vec![]);
    assert_eq!(handle_midi(&[0x90, 11], &mut s), vec![]);
}

#[test]
fn connect_page_switch() {
    let mut s = state();
    let actions = handle_midi(&[0xB0, 93, 127], &mut s);
    assert_eq!(s.current_page, 2);
    assert_eq!(actions, vec![Action::Midi { bytes: render_page(&s) }]);
    handle_fader(34, &mut s);
    assert_eq!(s.fader_levels[3], 3);
    handle_midi(&[0xB0, 93, 127], &mut s);
    assert_eq!(s.fader_levels, vec![0u8; 8]);
    assert_eq!(handle_midi(&[0xB0, 91, 0], &mut s), vec![]);
    assert_eq!(handle_midi(&[0xB0, 98, 127], &mut s), vec![]);
    assert_eq!(handle_midi(&[0xB0, 19, 127], &mut s), vec![]);
    assert_eq!(s.current_page, 2);
}

#[test]
fn connect_page_switch_forgets_what_was_shown() {
    let mut a = state();
    let mut b = state();
    handle_midi(&[0xB0, 92, 127], &mut b);
    handle_midi(&[0x90, 55, 127], &mut b);
    assert_eq!(
        handle_midi(&[0xB0, 93, 1], &mut a),
        handle_midi(&[0xB0, 93, 127], &mut b)
    );
    assert_eq!(a.xy_selected, b.xy_selected);
}

#[test]
fn connect_xy_page() {
    let mut s = state();
    handle_midi(&[0xB0, 92, 127], &mut s);
    let actions = handle_midi(&[0x90, 83, 127], &mut s);
    assert_eq!(s.xy_selected, Some((2, 7)));
    assert_eq!(actions[0], sent("/pan", OscValue::Ratio { num: 2, den: 7 }));
    assert_eq!(actions[1], sent("/tilt", OscValue::Ratio { num: 0, den: 7 }));
    assert_eq!(actions.len(), 3);
    let message = frame(&actions[2]);
    assert_eq!(shown(&message, 83), Some(3));
    assert_eq!(shown(&message, 82), Some(1));
    assert_eq!(shown(&message, 92), Some(72));
    assert_eq!(handle_xy(19, &mut s), vec![]);
    assert_eq!(handle_xy(10, &mut s), vec![]);
    assert_eq!(s.xy_selected, Some((2, 7)));
}

#[test]
fn connect_xy_page_without_addresses() {
    let mut s = state();
    s.config.pages[1].xy_config = None;
    handle_midi(&[0xB0, 92, 127], &mut s);
    let actions = handle_midi(&[0x90, 11, 127], &mut s);
    assert_eq!(actions.len(), 1);
    assert_eq!(s.xy_selected, Some((0, 0)));
    assert_eq!(shown(&frame(&actions[0]), 11), Some(0));
}

#[test]
fn connect_fader_page() {
    let mut s = state();
    handle_midi(&[0xB0, 93, 127], &mut s);
    let actions = handle_midi(&[0x90, 52, 127], &mut s);
    assert_eq!(s.fader_levels, vec![0, 5, 0, 0, 0, 0, 0, 0]);
    assert_eq!(actions[0], sent("/f2", OscValue::Ratio { num: 5, den: 8 }));
    let message = frame(&actions[1]);
    assert_eq!(shown(&message, 52), Some(60));
    assert_eq!(shown(&message, 12), Some(60));
    assert_eq!(shown(&message, 62), Some(61));
    assert_eq!(shown(&message, 51), Some(61));
    let actions = handle_midi(&[0x90, 82, 127], &mut s);
    assert_eq!(actions[0], sent("/f2", OscValue::Ratio { num: 8, den: 8 }));
    let actions = handle_midi(&[0x90, 13, 127], &mut s);
    assert_eq!(actions.len(), 1);
    assert_eq!(s.fader_levels[2], 1);
    assert_eq!(handle_fader(90, &mut s), vec![]);
}

#[test]
fn connect_fader_pad_twice() {
    let mut s = state();
    handle_midi(&[0xB0, 93, 127], &mut s);
    handle_midi(&[0x90, 41, 127], &mut s);
    assert_eq!(s.fader_levels[0], 4);
    let actions = handle_midi(&[0x90, 41, 127], &mut s);
    assert_eq!(s.fader_levels[0], 0);
    assert_eq!(actions[0], sent("/f1", OscValue::Ratio { num: 0, den: 8 }));
}
