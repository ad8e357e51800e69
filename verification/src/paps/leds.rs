//! Lighting messages that address the top row as controllers.
//!
//! Each LED takes a triple of kind, number and colour. Kind 1 stands for the
//! controllers of the top row, kind 0 for everything else. Colours are cut down
//! to seven bits.

use vstd::prelude::*;

use crate::frame::{law_later_pairs_win, law_selector_frame, lemma_shown_at, selectors, shown};
use crate::grid::{cell_of, page_for_cc, right_index, selector_index, PAGE_SELECT_CC};
use crate::sysex::{header, start_message};

verus! {

/// The kind of an LED.
pub open spec fn led_kind(number: u8) -> u8 {
    if selector_index(number) is Some {
        1
    } else {
        0
    }
}

/// The triples of a frame.
pub open spec fn led_triples(leds: Seq<(u8, u8)>) -> Seq<u8> {
    Seq::new(
        3 * leds.len(),
        |i: int|
            if i % 3 == 0 {
                led_kind(leds[i / 3].0)
            } else if i % 3 == 1 {
                leds[i / 3].0
            } else {
                leds[i / 3].1 % 128
            },
    )
}

/// The lighting message that sets a frame.
pub open spec fn led_message(leds: Seq<(u8, u8)>) -> Seq<u8> {
    header() + led_triples(leds) + seq![0xF7u8]
}

/// Off, for every selector.
pub open spec fn dark() -> spec_fn(int) -> u8 {
    |i: int| 0u8
}

/// The grid with the right column, row by row from the bottom, all off.
pub open spec fn pads_off() -> Seq<(u8, u8)> {
    Seq::new(72, |i: int| (((i / 9 + 1) * 10 + i % 9 + 1) as u8, 0u8))
}

/// Everything off: the grid with the right column, then the top row.
pub open spec fn everything_off() -> Seq<(u8, u8)> {
    pads_off() + selectors(dark())
}

/// Sets several LEDs with one message.
pub fn sysex_set_leds_bulk(pairs: &[(u8, u8)]) -> (message: Vec<u8>)
    ensures
        message@ == led_message(pairs@),
{
    let mut message = start_message();
    let mut i: usize = 0;
    while i < pairs.len()
        invariant
            i <= pairs@.len(),
            message@ == header() + led_triples(pairs@.take(i as int)),
        decreases pairs@.len() - i,
    {
        let (note, color) = pairs[i];
        let kind: u8 = if page_for_cc(note).is_some() {
            1
        } else {
            0
        };
        assert(color & 0x7F == color % 128) by (bit_vector);
        message.push(kind);
        message.push(note);
        message.push(color & 0x7F);
        proof {
            let before = pairs@.take(i as int);
            let after = pairs@.take(i + 1);
            assert(led_triples(after) =~= led_triples(before).push(kind).push(note).push(
                (color % 128) as u8,
            ));
        }
        i = i + 1;
    }
    assert(pairs@.take(i as int) =~= pairs@);
    message.push(0xF7);
    message
}

/// Turns everything off.
pub fn sysex_clear_all() -> (message: Vec<u8>)
    ensures
        message@ == led_message(everything_off()),
{
    let mut pairs: Vec<(u8, u8)> = Vec::new();
    let mut i: u8 = 0;
    while i < 72
        invariant
            i <= 72,
            pairs@ == pads_off().take(i as int),
        decreases 72 - i,
    {
        let row: u8 = i / 9;
        let col: u8 = i % 9;
        pairs.push(((row + 1) * 10 + col + 1, 0));
        i = i + 1;
        assert(pairs@ =~= pads_off().take(i as int));
    }
    assert(pads_off().take(72) =~= pads_off());
    let mut k: usize = 0;
    while k < 8
        invariant
            k <= 8,
            pairs@ == pads_off() + selectors(dark()).take(k as int),
        decreases 8 - k,
    {
        pairs.push((PAGE_SELECT_CC[k], 0));
        k = k + 1;
        assert(pairs@ =~= pads_off() + selectors(dark()).take(k as int));
    }
    assert(selectors(dark()).take(8) =~= selectors(dark()));
    sysex_set_leds_bulk(pairs.as_slice())
}

/// The message that sets a single LED.
pub fn set_single_led(note: u8, color: u8) -> (message: Vec<u8>)
    ensures
        message@ == led_message(seq![(note, color)]),
{
    let pairs: Vec<(u8, u8)> = vec![(note, color)];
    assert(pairs@ =~= seq![(note, color)]);
    sysex_set_leds_bulk(pairs.as_slice())
}

/// Where the numbers are 7-bit values, so is everything between the first and
/// the last byte, whatever the colours are.
pub proof fn law_message_is_sysex(leds: Seq<(u8, u8)>)
    requires
        forall|i: int| 0 <= i < leds.len() ==> (#[trigger] leds[i]).0 < 128,
    ensures
        led_message(leds)[0] == 0xF0,
        led_message(leds).last() == 0xF7,
        forall|i: int|
            0 < i < led_message(leds).len() - 1 ==> #[trigger] led_message(leds)[i] < 128,
{
    assert forall|i: int| 0 < i < led_message(leds).len() - 1 implies #[trigger] led_message(
        leds,
    )[i] < 128 by {
        if i >= 7 {
            let k = (i - 7) / 3;
            assert(leds[k].0 < 128);
        }
    }
}

/// Two frames with the same message name the same LEDs and give them colours that
/// agree in their lower seven bits.
pub proof fn law_message_determines_frame(a: Seq<(u8, u8)>, b: Seq<(u8, u8)>)
    requires
        led_message(a) == led_message(b),
    ensures
        a.len() == b.len(),
        forall|i: int|
            0 <= i < a.len() ==> (#[trigger] a[i]).0 == b[i].0 && a[i].1 % 128 == b[i].1 % 128,
{
    assert(led_message(a).len() == 8 + 3 * a.len());
    assert(led_message(b).len() == 8 + 3 * b.len());
    assert forall|i: int| 0 <= i < a.len() implies (#[trigger] a[i]).0 == b[i].0 && a[i].1 % 128
        == b[i].1 % 128 by {
        assert(led_message(a)[7 + 3 * i + 1] == a[i].0);
        assert(led_message(b)[7 + 3 * i + 1] == b[i].0);
        assert(led_message(a)[7 + 3 * i + 2] == a[i].1 % 128);
        assert(led_message(b)[7 + 3 * i + 2] == b[i].1 % 128);
    }
}

/// Turning everything off reaches every pad, every button of the right column and
/// every page selector.
pub proof fn law_everything_off(number: u8)
    requires
        (cell_of(number) is Some && number % 10 != 0) || right_index(number) is Some
            || selector_index(number) is Some,
    ensures
        shown(everything_off(), number) == Some(0u8),
{
    law_selector_frame(dark(), number);
    law_later_pairs_win(pads_off(), selectors(dark()), number);
    if selector_index(number) is None {
        let i = (number / 10 - 1) * 9 + number % 10 - 1;
        assert(i / 9 == number / 10 - 1 && i % 9 == number % 10 - 1);
        assert(pads_off()[i].0 == number);
        lemma_shown_at(pads_off(), i);
    }
}

/// A lighting message byte by byte: the device's header, three bytes for each LED in
/// order, and the end mark. The kind is 1 for the top row and 0 for all others, and a
/// colour loses its highest bit.
pub proof fn law_message_bytes(leds: Seq<(u8, u8)>, i: int)
    requires
        0 <= i < leds.len(),
    ensures
        led_message(leds).len() == 8 + 3 * leds.len(),
        led_message(leds).take(7) == seq![0xF0u8, 0x00, 0x20, 0x29, 0x02, 0x0D, 0x03],
        led_message(leds)[7 + 3 * i] == (if 91 <= leds[i].0 <= 98 {
            1u8
        } else {
            0u8
        }),
        led_message(leds)[8 + 3 * i] == leds[i].0,
        led_message(leds)[9 + 3 * i] == (if leds[i].1 < 128 {
            leds[i].1 as int
        } else {
            leds[i].1 - 128
        }),
        led_message(leds).last() == 0xF7,
{
    assert(led_message(leds).take(7) =~= seq![0xF0u8, 0x00, 0x20, 0x29, 0x02, 0x0D, 0x03]);
    assert(led_message(leds)[7 + 3 * i] == led_triples(leds)[3 * i]);
    assert(led_message(leds)[8 + 3 * i] == led_triples(leds)[3 * i + 1]);
    assert(led_message(leds)[9 + 3 * i] == led_triples(leds)[3 * i + 2]);
}

/// Turning everything off lights nothing.
pub proof fn law_nothing_is_lit(i: int)
    requires
        0 <= i < everything_off().len(),
    ensures
        everything_off().len() == 80,
        everything_off()[i].1 == 0,
{
}

} // verus!
