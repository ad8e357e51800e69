//! SysEx messages of the Launchpad Mini MK3 in programmer mode.
//!
//! A lighting message is the header `F0 00 20 29 02 0D 03`, one triple of
//! lighting type, LED number and colour for each LED, and the end byte `F7`.
//! The functions here use lighting type 0, a static palette colour.

use vstd::prelude::*;

use crate::frame::{all_off, push_all_off};

verus! {

/// Switches the Launchpad to programmer mode, in which the host sets every LED.
pub const SYSEX_PROGRAMMER_MODE: [u8; 9] = [0xF0, 0x00, 0x20, 0x29, 0x02, 0x0D, 0x0E, 0x01, 0xF7];

/// The bytes in front of the LED triples.
pub open spec fn header() -> Seq<u8> {
    seq![0xF0u8, 0x00, 0x20, 0x29, 0x02, 0x0D, 0x03]
}

/// The triples of a frame: lighting type 0, number, colour.
pub open spec fn led_triples(leds: Seq<(u8, u8)>) -> Seq<u8> {
    Seq::new(
        3 * leds.len(),
        |i: int|
            if i % 3 == 0 {
                0u8
            } else if i % 3 == 1 {
                leds[i / 3].0
            } else {
                leds[i / 3].1
            },
    )
}

/// The lighting message that sets a frame.
pub open spec fn led_message(leds: Seq<(u8, u8)>) -> Seq<u8> {
    header() + led_triples(leds) + seq![0xF7u8]
}

/// A fresh message that holds the header.
pub fn start_message() -> (message: Vec<u8>)
    ensures
        message@ == header(),
{
    let message: Vec<u8> = vec![0xF0, 0x00, 0x20, 0x29, 0x02, 0x0D, 0x03];
    assert(message@ =~= header());
    message
}

/// Sets a single LED to a palette colour.
pub fn sysex_set_led(note: u8, color: u8) -> (message: Vec<u8>)
    ensures
        message@ == seq![0xF0u8, 0x00, 0x20, 0x29, 0x02, 0x0D, 0x03, 0x00, note, color, 0xF7],
{
    vec![0xF0, 0x00, 0x20, 0x29, 0x02, 0x0D, 0x03, 0x00, note, color, 0xF7]
}

/// Sets several LEDs with one message.
pub fn sysex_set_leds_bulk(pairs: &[(u8, u8)]) -> (message: Vec<u8>)
    ensures
        message@ == led_message(pairs@),
{
    let mut message = start_message();
    let mut i: usize = 0;
    while i < pairs.len()
        invariant
            i <= pairs@.len(),
            message@ == header() + led_triples(pairs@.take(i as int)),
        decreases pairs@.len() - i,
    {
        let (note, color) = pairs[i];
        message.push(0x00);
        message.push(note);
        message.push(color);
        proof {
            let before = pairs@.take(i as int);
            let after = pairs@.take(i + 1);
            assert(led_triples(after) =~= led_triples(before).push(0u8).push(note).push(color));
        }
        i = i + 1;
    }
    assert(pairs@.take(i as int) =~= pairs@);
    message.push(0xF7);
    message
}

/// Turns off every LED from 0 to 99.
pub fn sysex_clear_all() -> (message: Vec<u8>)
    ensures
        message@ == led_message(all_off()),
{
    let mut pairs: Vec<(u8, u8)> = Vec::new();
    push_all_off(&mut pairs);
    assert(pairs@ =~= all_off());
    sysex_set_leds_bulk(pairs.as_slice())
}

/// A frame of one LED is the message that sets that LED alone.
pub proof fn law_bulk_of_one(note: u8, color: u8)
    ensures
        led_message(seq![(note, color)]) == seq![
            0xF0u8,
            0x00,
            0x20,
            0x29,
            0x02,
            0x0D,
            0x03,
            0x00,
            note,
            color,
            0xF7,
        ],
{
    assert(led_message(seq![(note, color)]) =~= seq![
        0xF0u8,
        0x00,
        0x20,
        0x29,
        0x02,
        0x0D,
        0x03,
        0x00,
        note,
        color,
        0xF7,
    ]);
}

/// A lighting message can be read back: different frames have different messages.
pub proof fn law_message_determines_frame(a: Seq<(u8, u8)>, b: Seq<(u8, u8)>)
    requires
        led_message(a) == led_message(b),
    ensures
        a == b,
{
    assert(led_message(a).len() == 8 + 3 * a.len());
    assert(led_message(b).len() == 8 + 3 * b.len());
    assert forall|i: int| 0 <= i < a.len() implies a[i] == b[i] by {
        assert(led_message(a)[7 + 3 * i + 1] == a[i].0);
        assert(led_message(b)[7 + 3 * i + 1] == b[i].0);
        assert(led_message(a)[7 + 3 * i + 2] == a[i].1);
        assert(led_message(b)[7 + 3 * i + 2] == b[i].1);
    }
    assert(a =~= b);
}

/// Where numbers and colours are 7-bit values, so is everything between the
/// first and the last byte, as MIDI demands of a SysEx message.
pub proof fn law_message_is_sysex(leds: Seq<(u8, u8)>)
    requires
        forall|i: int|
            0 <= i < leds.len() ==> (#[trigger] leds[i]).0 < 128 && leds[i].1 < 128,
    ensures
        led_message(leds)[0] == 0xF0,
        led_message(leds).last() == 0xF7,
        forall|i: int|
            0 < i < led_message(leds).len() - 1 ==> #[trigger] led_message(leds)[i] < 128,
{
    assert forall|i: int| 0 < i < led_message(leds).len() - 1 implies #[trigger] led_message(
        leds,
    )[i] < 128 by {
        if i >= 7 {
            let k = (i - 7) / 3;
            assert(leds[k].0 < 128 && leds[k].1 < 128);
        }
    }
}

/// A lighting message byte by byte: the device's header, three bytes for each LED in
/// order, and the end mark.
pub proof fn law_message_bytes(leds: Seq<(u8, u8)>, i: int)
    requires
        0 <= i < leds.len(),
    ensures
        led_message(leds).len() == 8 + 3 * leds.len(),
        led_message(leds).take(7) == seq![0xF0u8, 0x00, 0x20, 0x29, 0x02, 0x0D, 0x03],
        led_message(leds)[7 + 3 * i] == 0,
        led_message(leds)[8 + 3 * i] == leds[i].0,
        led_message(leds)[9 + 3 * i] == leds[i].1,
        led_message(leds).last() == 0xF7,
{
    assert(led_message(leds).take(7) =~= seq![0xF0u8, 0x00, 0x20, 0x29, 0x02, 0x0D, 0x03]);
    assert(led_message(leds)[7 + 3 * i] == led_triples(leds)[3 * i]);
    assert(led_message(leds)[8 + 3 * i] == led_triples(leds)[3 * i + 1]);
    assert(led_message(leds)[9 + 3 * i] == led_triples(leds)[3 * i + 2]);
}

} // verus!
