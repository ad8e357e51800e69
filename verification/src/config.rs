//! Parts of the configuration that several bridges share.

use vstd::prelude::*;
use vstd::string::*;

use crate::actions::OscValue;
use crate::frame::{lemma_not_shown, lemma_shown_at, shown};
use crate::text::{append_decimal, decimal};

verus! {

/// Where OSC messages go.
#[derive(Clone, Debug)]
pub struct OscConfig {
    pub host: String,
    pub port: u16,
}

/// A pad that sends an OSC message.
#[derive(Clone, Debug)]
pub struct ButtonConfig {
    pub note: u8,
    pub label: String,
    pub color: u8,
    pub osc_address: String,
    pub osc_value: OscValue,
}

/// A page on which the grid is a pan/tilt pad.
#[derive(Clone, Debug)]
pub struct XyConfig {
    pub pan_address: String,
    pub tilt_address: String,
    pub color_inactive: u8,
    pub color_active: u8,
}

/// A page on which every column is a fader.
#[derive(Clone, Debug)]
pub struct FaderConfig {
    pub addresses: Vec<String>,
    pub color_on: u8,
    pub color_off: u8,
}

/// Host and port as `host:port`.
pub open spec fn target_text(host: Seq<char>, port: u16) -> Seq<char> {
    host + seq![':'] + decimal(port as nat)
}

/// The first button with this note.
pub open spec fn find_button(buttons: Seq<ButtonConfig>, note: u8) -> Option<ButtonConfig>
    decreases buttons.len(),
{
    if buttons.len() == 0 {
        None
    } else if buttons[0].note == note {
        Some(buttons[0])
    } else {
        find_button(buttons.skip(1), note)
    }
}

/// The LEDs of a list of buttons.
pub open spec fn button_leds(buttons: Seq<ButtonConfig>) -> Seq<(u8, u8)> {
    buttons.map_values(|button: ButtonConfig| (button.note, button.color))
}

/// The address that OSC messages are sent to.
pub fn osc_target(osc: &OscConfig) -> (target: String)
    ensures
        target@ == target_text(osc.host@, osc.port),
{
    let mut target = osc.host.clone();
    target.append(":");
    append_decimal(&mut target, osc.port as u64);
    proof {
        reveal_strlit(":");
        assert(target@ =~= target_text(osc.host@, osc.port));
    }
    target
}

/// The position of the first button with this note.
pub fn button_index(buttons: &Vec<ButtonConfig>, note: u8) -> (index: Option<usize>)
    ensures
        match index {
            Some(i) => i < buttons@.len() && find_button(buttons@, note) == Some(
                buttons@[i as int],
            ),
            None => find_button(buttons@, note) is None,
        },
{
    let mut i: usize = 0;
    assert(buttons@.skip(0) =~= buttons@);
    while i < buttons.len()
        invariant
            i <= buttons@.len(),
            find_button(buttons@, note) == find_button(buttons@.skip(i as int), note),
        decreases buttons@.len() - i,
    {
        assert(buttons@.skip(i as int)[0] == buttons@[i as int]);
        if buttons[i].note == note {
            return Some(i);
        }
        assert(buttons@.skip(i as int).skip(1) =~= buttons@.skip(i + 1));
        i = i + 1;
    }
    None
}

/// Appends the LEDs of a list of buttons.
pub fn push_buttons(leds: &mut Vec<(u8, u8)>, buttons: &Vec<ButtonConfig>)
    ensures
        final(leds)@ == old(leds)@ + button_leds(buttons@),
{
    let ghost before = leds@;
    let mut i: usize = 0;
    while i < buttons.len()
        invariant
            i <= buttons@.len(),
            leds@ == before + button_leds(buttons@).take(i as int),
        decreases buttons@.len() - i,
    {
        leds.push((buttons[i].note, buttons[i].color));
        i = i + 1;
        assert(leds@ =~= before + button_leds(buttons@).take(i as int));
    }
    assert(button_leds(buttons@).take(i as int) =~= button_leds(buttons@));
}

/// A found button has the note that was looked for and is the first one with it.
pub proof fn law_find_button(buttons: Seq<ButtonConfig>, note: u8)
    ensures
        find_button(buttons, note) is None <==> forall|i: int|
            0 <= i < buttons.len() ==> (#[trigger] buttons[i]).note != note,
        find_button(buttons, note) matches Some(button) ==> exists|i: int|
            {
                &&& 0 <= i < buttons.len()
                &&& #[trigger] buttons[i] == button
                &&& button.note == note
                &&& forall|j: int| 0 <= j < i ==> (#[trigger] buttons[j]).note != note
            },
    decreases buttons.len(),
{
    if buttons.len() > 0 {
        let rest = buttons.skip(1);
        law_find_button(rest, note);
        if buttons[0].note != note {
            if find_button(rest, note) is None {
                assert forall|i: int| 0 <= i < buttons.len() implies (#[trigger] buttons[i]).note
                    != note by {
                    if i > 0 {
                        assert(rest[i - 1] == buttons[i]);
                    }
                }
            } else {
                let button = find_button(rest, note)->0;
                let k = choose|i: int|
                    {
                        &&& 0 <= i < rest.len()
                        &&& #[trigger] rest[i] == button
                        &&& button.note == note
                        &&& forall|j: int| 0 <= j < i ==> (#[trigger] rest[j]).note != note
                    };
                assert(buttons[k + 1] == button);
                assert forall|j: int| 0 <= j < k + 1 implies (#[trigger] buttons[j]).note
                    != note by {
                    if j > 0 {
                        assert(rest[j - 1] == buttons[j]);
                    }
                }
            }
        } else {
            assert(buttons[0] == find_button(buttons, note)->0);
        }
    }
}

/// A button has its colour; of several buttons on one pad the last counts. Nothing
/// else is lit.
pub proof fn law_buttons_are_shown(buttons: Seq<ButtonConfig>, number: u8)
    ensures
        forall|b: int|
            0 <= b < buttons.len() && (#[trigger] buttons[b]).note == number && (forall|later: int|
                b < later < buttons.len() ==> (#[trigger] buttons[later]).note != number) ==> shown(
                button_leds(buttons),
                number,
            ) == Some(buttons[b].color),
        (forall|b: int| 0 <= b < buttons.len() ==> (#[trigger] buttons[b]).note != number)
            ==> shown(button_leds(buttons), number) is None,
{
    let leds = button_leds(buttons);
    assert forall|b: int|
        0 <= b < buttons.len() && (#[trigger] buttons[b]).note == number && (forall|later: int|
            b < later < buttons.len() ==> (#[trigger] buttons[later]).note != number) implies shown(
        leds,
        number,
    ) == Some(buttons[b].color) by {
        assert forall|j: int| b < j < leds.len() implies (#[trigger] leds[j]).0 != leds[b].0 by {
            assert(buttons[j].note != number);
        }
        lemma_shown_at(leds, b);
    }
    if forall|b: int| 0 <= b < buttons.len() ==> (#[trigger] buttons[b]).note != number {
        assert forall|j: int| 0 <= j < leds.len() implies (#[trigger] leds[j]).0 != number by {
            assert(buttons[j].note != number);
        }
        lemma_not_shown(leds, number);
    }
}

/// The target is the host, a colon and the port.
pub proof fn law_target(host: Seq<char>, port: u16)
    ensures
        target_text(host, port).len() == host.len() + 1 + decimal(port as nat).len(),
        target_text(host, port).take(host.len() as int) == host,
        target_text(host, port)[host.len() as int] == ':',
        target_text(host, port).skip((host.len() + 1) as int) == decimal(port as nat),
{
    assert(target_text(host, port).take(host.len() as int) =~= host);
    assert(target_text(host, port).skip((host.len() + 1) as int) =~= decimal(port as nat));
}

} // verus!
