//! The MIDI messages that the Launchpad sends.

use vstd::prelude::*;

verus! {

/// A message from the Launchpad. The channel does not matter.
#[derive(Clone, Copy, Debug, PartialEq, Eq, Structural)]
pub enum MidiEvent {
    /// A control change: a button of the top row or the right column.
    Control { number: u8, value: u8 },
    /// A pad was pressed.
    NoteOn { note: u8 },
    /// A pad was released: a Note Off, or a Note On with velocity 0.
    NoteOff { note: u8 },
    /// Anything else, messages shorter than three bytes among it.
    Other,
}

/// The event that a message stands for.
pub open spec fn event_of(message: Seq<u8>) -> MidiEvent {
    if message.len() < 3 {
        MidiEvent::Other
    } else if message[0] / 16 == 0xB {
        MidiEvent::Control { number: message[1], value: message[2] }
    } else if message[0] / 16 == 0x9 && message[2] > 0 {
        MidiEvent::NoteOn { note: message[1] }
    } else if message[0] / 16 == 0x8 || message[0] / 16 == 0x9 {
        MidiEvent::NoteOff { note: message[1] }
    } else {
        MidiEvent::Other
    }
}

/// Reads a message.
pub fn parse_midi(message: &[u8]) -> (event: MidiEvent)
    ensures
        event == event_of(message@),
{
    if message.len() < 3 {
        return MidiEvent::Other;
    }
    let status: u8 = message[0];
    let data1: u8 = message[1];
    let data2: u8 = message[2];
    assert(status & 0xF0 == (status / 16) * 16) by (bit_vector);
    match status & 0xF0 {
        0xB0 => MidiEvent::Control { number: data1, value: data2 },
        0x90 if data2 > 0 => MidiEvent::NoteOn { note: data1 },
        0x80 | 0x90 => MidiEvent::NoteOff { note: data1 },
        _ => MidiEvent::Other,
    }
}

/// The upper half of the status byte tells what a message is, and a press without
/// velocity is a release. Shorter messages mean nothing.
pub proof fn law_events(message: Seq<u8>)
    ensures
        message.len() < 3 ==> event_of(message) is Other,
        message.len() >= 3 ==> {
            &&& 0xB0 <= message[0] <= 0xBF <==> event_of(message) is Control
            &&& 0x90 <= message[0] <= 0x9F && message[2] > 0 <==> event_of(message) is NoteOn
            &&& (0x80 <= message[0] <= 0x8F || (0x90 <= message[0] <= 0x9F && message[2] == 0))
                <==> event_of(message) is NoteOff
            &&& event_of(message) matches MidiEvent::Control { number, value } ==> number
                == message[1] && value == message[2]
            &&& event_of(message) matches MidiEvent::NoteOn { note } ==> note == message[1]
            &&& event_of(message) matches MidiEvent::NoteOff { note } ==> note == message[1]
        },
{
}

} // verus!
