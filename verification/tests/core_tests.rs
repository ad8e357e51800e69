use launchpad_qlc::colors::{
    colors_from_file, colors_from_json, colors_to_file, colors_to_json, fader_colors_path, parse_key,
    ColorMap,
};
use launchpad_qlc::config::{osc_target, OscConfig};
use launchpad_qlc::grid::{
    grid_note, grid_to_pad_index, note_to_grid, page_for_cc, right_column_index, PAGE_SELECT_CC,
    RIGHT_COLUMN,
};
use launchpad_qlc::midi::{parse_midi, MidiEvent};
use launchpad_qlc::paps;
use launchpad_qlc::ports::{find_port, first_match};
use launchpad_qlc::position::{cell_position, nearest, nudge, CENTRE, ONE};
use launchpad_qlc::sysex::{
    sysex_clear_all, sysex_set_led, sysex_set_leds_bulk, SYSEX_PROGRAMMER_MODE,
};
use launchpad_qlc::text::{append_decimal, characters, contains, parse_number, replace_all};

fn single(units: u32) -> f32 {
    units as f32 / 2147483648.0
}

#[test]
fn notes_and_cells() {
    assert_eq!(grid_note(0, 0), 11);
    assert_eq!(grid_note(7, 0), 18);
    assert_eq!(grid_note(0, 7), 81);
    assert_eq!(grid_note(7, 7), 88);
    assert_eq!(note_to_grid(11), Some((0, 0)));
    assert_eq!(note_to_grid(88), Some((7, 7)));
    assert_eq!(note_to_grid(54), Some((3, 4)));
}

#[test]
fn every_cell_reads_back() {
    for row in 0u8..8 {
        for col in 0u8..8 {
            assert_eq!(note_to_grid(grid_note(col, row)), Some((col, row)));
        }
    }
}

#[test]
fn notes_beside_the_grid() {
    for note in [0u8, 10, 19, 29, 79, 89, 90, 91, 98, 255] {
        assert_eq!(note_to_grid(note), None, "note {}", note);
    }
    assert_eq!(note_to_grid(20), Some((0, 1)));
    assert_eq!(note_to_grid(80), Some((0, 7)));
}

#[test]
fn pads_are_numbered_from_the_bottom_left() {
    assert_eq!(grid_to_pad_index(0, 0), 1);
    assert_eq!(grid_to_pad_index(7, 0), 8);
    assert_eq!(grid_to_pad_index(0, 1), 9);
    assert_eq!(grid_to_pad_index(7, 7), 64);
}

#[test]
fn selectors_and_right_column() {
    for i in 0..8usize {
        assert_eq!(page_for_cc(PAGE_SELECT_CC[i]), Some(i));
        assert_eq!(right_column_index(RIGHT_COLUMN[i]), Some(i));
    }
    assert_eq!(PAGE_SELECT_CC[0], 91);
    assert_eq!(RIGHT_COLUMN[7], 89);
    assert_eq!(page_for_cc(90), None);
    assert_eq!(page_for_cc(99), None);
    assert_eq!(right_column_index(9), None);
    assert_eq!(right_column_index(99), None);
    assert_eq!(right_column_index(88), None);
}

#[test]
fn midi_messages() {
    assert_eq!(parse_midi(&[0xB0, 91, 127]), MidiEvent::Control { number: 91, value: 127 });
    assert_eq!(parse_midi(&[0xB5, 91, 0]), MidiEvent::Control { number: 91, value: 0 });
    assert_eq!(parse_midi(&[0x90, 11, 1]), MidiEvent::NoteOn { note: 11 });
    assert_eq!(parse_midi(&[0x90, 11, 0]), MidiEvent::NoteOff { note: 11 });
    assert_eq!(parse_midi(&[0x80, 11, 64]), MidiEvent::NoteOff { note: 11 });
    assert_eq!(parse_midi(&[0x9F, 11, 64, 0]), MidiEvent::NoteOn { note: 11 });
    assert_eq!(parse_midi(&[0xE0, 11, 64]), MidiEvent::Other);
    assert_eq!(parse_midi(&[0x90, 11]), MidiEvent::Other);
    assert_eq!(parse_midi(&[]), MidiEvent::Other);
}

#[test]
fn one_led() {
    let message = vec![0xF0, 0x00, 0x20, 0x29, 0x02, 0x0D, 0x03, 0x00, 11, 5, 0xF7];
    assert_eq!(sysex_set_led(11, 5), message);
    assert_eq!(sysex_set_leds_bulk(&[(11, 5)]), message);
}

#[test]
fn several_leds() {
    assert_eq!(
        sysex_set_leds_bulk(&[(91, 72), (11, 200)]),
        vec![0xF0, 0x00, 0x20, 0x29, 0x02, 0x0D, 0x03, 0, 91, 72, 0, 11, 200, 0xF7]
    );
    assert_eq!(
        sysex_set_leds_bulk(&[]),
        vec![0xF0, 0x00, 0x20, 0x29, 0x02, 0x0D, 0x03, 0xF7]
    );
}

#[test]
fn clear_all_counts_to_99() {
    let message = sysex_clear_all();
    assert_eq!(message.len(), 7 + 300 + 1);
    assert_eq!(&message[0..13], &[0xF0, 0, 0x20, 0x29, 2, 0x0D, 3, 0, 0, 0, 0, 1, 0]);
    assert_eq!(&message[304..], &[0, 99, 0, 0xF7]);
}

#[test]
fn programmer_mode() {
    assert_eq!(
        SYSEX_PROGRAMMER_MODE,
        [0xF0, 0x00, 0x20, 0x29, 0x02, 0x0D, 0x0E, 0x01, 0xF7]
    );
}

#[test]
fn top_row_leds_are_controllers() {
    assert_eq!(
        paps::leds::sysex_set_leds_bulk(&[(91, 72), (11, 200), (89, 127)]),
        vec![
            0xF0, 0x00, 0x20, 0x29, 0x02, 0x0D, 0x03, 1, 91, 72, 0, 11, 72, 0, 89, 127, 0xF7
        ]
    );
    assert_eq!(
        paps::leds::set_single_led(98, 128),
        vec![0xF0, 0x00, 0x20, 0x29, 0x02, 0x0D, 0x03, 1, 98, 0, 0xF7]
    );
}

#[test]
fn everything_off_has_80_leds() {
    let message = paps::leds::sysex_clear_all();
    assert_eq!(message.len(), 7 + 240 + 1);
    assert_eq!(&message[7..13], &[0, 11, 0, 0, 12, 0]);
    assert_eq!(&message[7 + 3 * 8..7 + 3 * 10], &[0, 19, 0, 0, 21, 0]);
    assert_eq!(&message[7 + 3 * 72..7 + 3 * 74], &[1, 91, 0, 1, 92, 0]);
    assert_eq!(&message[244..], &[1, 98, 0, 0xF7]);
}

#[test]
fn decimal_text() {
    let mut text = String::from("n=");
    append_decimal(&mut text, 0);
    append_decimal(&mut text, 7700);
    append_decimal(&mut text, u64::MAX);
    assert_eq!(text, "n=0770018446744073709551615");
}

#[test]
fn numbers_in_text() {
    let chars = characters("12:+34");
    assert_eq!(parse_number(&chars, 0, 2, 255), Some(12));
    assert_eq!(parse_number(&chars, 3, 6, 255), Some(34));
    assert_eq!(parse_number(&chars, 0, 6, 255), None);
    assert_eq!(parse_number(&chars, 2, 2, 255), None);
    assert_eq!(parse_number(&chars, 3, 4, 255), None);
    let large = characters("256");
    assert_eq!(parse_number(&large, 0, 3, 255), None);
    assert_eq!(parse_number(&large, 0, 3, 256), Some(256));
    let huge = characters("99999999999999999999999");
    assert_eq!(parse_number(&huge, 0, 23, u64::MAX), None);
}

#[test]
fn searching_and_replacing() {
    assert!(contains("launchpad mini mk3", "mini"));
    assert!(contains("abc", ""));
    assert!(!contains("abc", "abcd"));
    assert!(contains("aab", "ab"));
    assert_eq!(replace_all("a-b-c", "-", "+"), "a+b+c");
    assert_eq!(replace_all("aaa", "aa", "b"), "ba");
    assert_eq!(replace_all("äöü", "ö", "oe"), "äoeü");
}

#[test]
fn target_is_host_and_port() {
    let osc = OscConfig { host: String::from("127.0.0.1"), port: 7700 };
    assert_eq!(osc_target(&osc), "127.0.0.1:7700");
    let osc = OscConfig { host: String::from("qlc.local"), port: 0 };
    assert_eq!(osc_target(&osc), "qlc.local:0");
}

#[test]
fn ports_match_in_any_case() {
    let names = vec![
        None,
        Some(String::from("Midi Through")),
        Some(String::from("LPMiniMK3 MIDI 2")),
        Some(String::from("LPMiniMK3 MIDI 3")),
    ];
    assert_eq!(find_port(&names, "lpminimk3"), Some(2));
    assert_eq!(find_port(&names, "LPMINIMK3 midi 3"), Some(3));
    assert_eq!(find_port(&names, "ÄPC"), None);
    assert_eq!(find_port(&names, ""), Some(1));
    assert_eq!(find_port(&vec![], "x"), None);
    let umlaut = vec![Some(String::from("GERÄT"))];
    assert_eq!(find_port(&umlaut, "gerät"), Some(0));
}

#[test]
fn first_match_takes_case_as_it_is() {
    let names = vec![Some(String::from("ABC")), Some(String::from("xabc"))];
    assert_eq!(first_match(&names, "abc"), Some(1));
    assert_eq!(first_match(&names, "q"), None);
}

#[test]
fn keys_of_the_colors_file() {
    assert_eq!(parse_key("3:45"), Some((3, 45)));
    assert_eq!(parse_key("+3:+45"), Some((3, 45)));
    assert_eq!(parse_key("003:045"), Some((3, 45)));
    assert_eq!(parse_key("3:256"), None);
    assert_eq!(parse_key("3"), None);
    assert_eq!(parse_key("3:4:5"), None);
    assert_eq!(parse_key(":5"), None);
    assert_eq!(parse_key("3:"), None);
    assert_eq!(parse_key("-3:5"), None);
    assert_eq!(parse_key(" 3:5"), None);
}

#[test]
fn color_maps() {
    let mut map = ColorMap::new();
    assert_eq!(map.len(), 0);
    assert_eq!(map.get(0, 11), None);
    map.insert(0, 11, 5);
    map.insert(1, 11, 6);
    map.insert(0, 11, 7);
    assert_eq!(map.len(), 2);
    assert_eq!(map.get(0, 11), Some(7));
    assert_eq!(map.get(1, 11), Some(6));
    assert_eq!(map.get(1, 12), None);
}

#[test]
fn colors_as_members() {
    let mut map = ColorMap::new();
    map.insert(0, 11, 5);
    map.insert(12, 88, 127);
    let mut file = colors_to_file(&map);
    file.sort();
    assert_eq!(file, vec![(String::from("0:11"), 5), (String::from("12:88"), 127)]);
    let again = colors_from_file(file);
    assert_eq!(again.len(), 2);
    assert_eq!(again.get(0, 11), Some(5));
    assert_eq!(again.get(12, 88), Some(127));
}

#[test]
fn members_that_are_no_keys_are_passed_over() {
    let map = colors_from_file(vec![
        (String::from("1:2"), 3),
        (String::from("nonsense"), 4),
        (String::from("1:300"), 5),
        (String::from("01:2"), 6),
    ]);
    assert_eq!(map.len(), 1);
    assert_eq!(map.get(1, 2), Some(6));
}

#[test]
fn colors_survive_the_file() {
    let mut map = ColorMap::new();
    map.insert(0, 11, 5);
    map.insert(2, 88, 0);
    map.insert(usize::MAX, 255, 255);
    let text = match colors_to_json(&map) {
        Ok(text) => text,
        Err(_) => panic!("no text"),
    };
    assert!(text.contains("\"0:11\": 5"));
    assert!(text.starts_with("{\n  \""));
    let again = colors_from_json(&text);
    assert_eq!(again.len(), 3);
    assert_eq!(again.get(0, 11), Some(5));
    assert_eq!(again.get(2, 88), Some(0));
    assert_eq!(again.get(usize::MAX, 255), Some(255));
}

#[test]
fn no_colors_make_an_empty_object() {
    match colors_to_json(&ColorMap::new()) {
        Ok(text) => assert_eq!(text, "{}"),
        Err(_) => panic!("no text"),
    }
}

#[test]
fn files_that_cannot_be_read_give_no_colors() {
    for text in ["", "nonsense", "[]", "{\"0:11\": 256}", "{\"0:11\": \"5\"}", "{\"0:11\": 5"] {
        assert_eq!(colors_from_json(text).len(), 0, "{}", text);
    }
    let map = colors_from_json("{\"0:11\": 5, \"x\": 6}");
    assert_eq!(map.len(), 1);
    assert_eq!(map.get(0, 11), Some(5));
}

#[test]
fn fader_colors_lie_beside_the_others() {
    assert_eq!(fader_colors_path("/etc/custom_colors.json"), "/etc/fader_colors.json");
    assert_eq!(fader_colors_path("custom_colors.json"), "fader_colors.json");
    assert_eq!(fader_colors_path("other.json"), "other.json");
}

#[test]
fn cells_are_sevenths_in_single_precision() {
    for i in 0u8..8 {
        assert_eq!(single(cell_position(i)).to_bits(), (i as f32 / 7.0).to_bits());
    }
    assert_eq!(cell_position(0), 0);
    assert_eq!(cell_position(7), ONE);
}

#[test]
fn steps_are_single_precision_numbers() {
    assert_eq!(single(nearest(ONE as u64, 4)).to_bits(), 0.25f32.to_bits());
    assert_eq!(single(nearest(ONE as u64, 20)).to_bits(), 0.05f32.to_bits());
    assert_eq!(single(nearest(ONE as u64, 10)).to_bits(), 0.1f32.to_bits());
    assert_eq!(single(CENTRE), 0.5);
}

#[test]
fn nudges_add_up_as_single_precision_numbers_do() {
    let steps = [0.25f32, 0.1, 0.05];
    let units = [nearest(ONE as u64, 4), nearest(ONE as u64, 10), nearest(ONE as u64, 20)];
    for start in 0u8..9 {
        let mut position = if start == 8 { CENTRE } else { cell_position(start) };
        let mut expected: f32 = if start == 8 { 0.5 } else { start as f32 / 7.0 };
        let mut seed: u32 = 12345 + start as u32;
        for _ in 0..3000 {
            seed = seed.wrapping_mul(1664525).wrapping_add(1013904223);
            let which = ((seed >> 16) % 3) as usize;
            let up = (seed >> 24) % 2 == 0;
            let delta = if up { units[which] as i64 } else { -(units[which] as i64) };
            position = nudge(position, delta);
            expected = (expected + if up { steps[which] } else { -steps[which] }).max(0.0).min(1.0);
            assert_eq!(single(position).to_bits(), expected.to_bits());
        }
    }
}

#[test]
fn nudges_stay_between_0_and_1() {
    let quarter = nearest(ONE as u64, 4) as i64;
    let mut position = CENTRE;
    for _ in 0..5 {
        position = nudge(position, quarter);
    }
    assert_eq!(position, ONE);
    for _ in 0..5 {
        position = nudge(position, -quarter);
    }
    assert_eq!(position, 0);
}

#[test]
fn pad_numbers_are_distinct() {
    let mut seen = vec![false; 65];
    for row in 0u8..8 {
        for col in 0u8..8 {
            let number = grid_to_pad_index(col, row) as usize;
            assert!(1 <= number && number <= 64);
            assert!(!seen[number]);
            seen[number] = true;
        }
    }
}

#[test]
fn no_number_stands_for_two_things() {
    for number in 0u8..=255 {
        let kinds = [
            page_for_cc(number).is_some(),
            right_column_index(number).is_some(),
            note_to_grid(number).is_some(),
        ];
        assert!(kinds.iter().filter(|kind| **kind).count() <= 1);
    }
}

#[test]
fn messages_tell_frames_apart() {
    let frames: [&[(u8, u8)]; 4] = [&[], &[(11, 5)], &[(11, 6)], &[(11, 5), (11, 5)]];
    for (i, a) in frames.iter().enumerate() {
        for (j, b) in frames.iter().enumerate() {
            assert_eq!(sysex_set_leds_bulk(a) == sysex_set_leds_bulk(b), i == j);
        }
    }
}
