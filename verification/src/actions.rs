//! What the bridge asks its surroundings to do.

use vstd::prelude::*;

use crate::position::ONE;

verus! {

/// The argument of an OSC message. QLC+ takes a single precision number; here it
/// is kept exact, and the sender turns it into one.
#[derive(Clone, Copy, Debug, PartialEq, Eq, Structural)]
pub enum OscValue {
    /// The quotient of two small numbers.
    Ratio { num: u8, den: u8 },
    /// A position in units of 2^-31 (see `position`).
    Position { units: u32 },
    /// A number from the configuration, by the bits of its single precision form.
    Configured { bits: u32 },
}

/// Something to be done by the caller.
#[derive(Clone, Debug, PartialEq, Eq)]
pub enum Action {
    /// Send an OSC message.
    Osc { address: String, value: OscValue },
    /// Send a MIDI message to the Launchpad.
    Midi { bytes: Vec<u8> },
    /// Save the colours of the custom pages.
    SaveColors,
    /// Save the colours of the faders.
    SaveFaderColors,
    /// Save the state of the RGBW pages.
    SaveRgbw,
    /// Start a beat thread that ticks with this epoch.
    StartBeat { epoch: u64 },
}

/// The model of an action.
pub enum Effect {
    Osc { address: Seq<char>, value: OscValue },
    Midi { bytes: Seq<u8> },
    SaveColors,
    SaveFaderColors,
    SaveRgbw,
    StartBeat { epoch: u64 },
}

impl View for Action {
    type V = Effect;

    open spec fn view(&self) -> Effect {
        match *self {
            Action::Osc { address, value } => Effect::Osc { address: address@, value },
            Action::Midi { bytes } => Effect::Midi { bytes: bytes@ },
            Action::SaveColors => Effect::SaveColors,
            Action::SaveFaderColors => Effect::SaveFaderColors,
            Action::SaveRgbw => Effect::SaveRgbw,
            Action::StartBeat { epoch } => Effect::StartBeat { epoch },
        }
    }
}

/// The model of a list of actions.
pub open spec fn effects(actions: Seq<Action>) -> Seq<Effect> {
    actions.map_values(|action: Action| action@)
}

/// The OSC message with this address and value.
pub open spec fn osc(address: Seq<char>, value: OscValue) -> Effect {
    Effect::Osc { address, value }
}

/// The number 0.
pub open spec fn zero() -> OscValue {
    OscValue::Ratio { num: 0, den: 1 }
}

/// The number 1.
pub open spec fn one() -> OscValue {
    OscValue::Ratio { num: 1, den: 1 }
}

/// Whether a value that the bridge computed lies between 0 and 1.
pub open spec fn in_unit_range(value: OscValue) -> bool {
    match value {
        OscValue::Ratio { num, den } => 0 < den && num <= den,
        OscValue::Position { units } => units <= ONE,
        OscValue::Configured { .. } => false,
    }
}

/// Whether a value comes from the configuration.
pub open spec fn is_configured(value: OscValue) -> bool {
    value is Configured
}

/// Every OSC value in a list of effects lies between 0 and 1, unless it comes
/// from the configuration as it is.
pub open spec fn values_in_range(list: Seq<Effect>) -> bool {
    forall|i: int|
        0 <= i < list.len() ==> ((#[trigger] list[i]) matches Effect::Osc { value, .. } ==> {
            is_configured(value) || in_unit_range(value)
        })
}

/// No effect in the list is an OSC message.
pub open spec fn sends_no_osc(list: Seq<Effect>) -> bool {
    forall|i: int| 0 <= i < list.len() ==> !((#[trigger] list[i]) is Osc)
}

/// Appends an action.
pub fn push_action(actions: &mut Vec<Action>, action: Action)
    ensures
        effects(final(actions)@) == effects(old(actions)@).push(action@),
{
    let ghost before = actions@;
    actions.push(action);
    assert(effects(actions@) =~= effects(before).push(action@));
}

/// Appends the sending of an OSC message.
pub fn push_osc(actions: &mut Vec<Action>, address: &String, value: OscValue)
    ensures
        effects(final(actions)@) == effects(old(actions)@).push(osc(address@, value)),
{
    push_action(actions, Action::Osc { address: address.clone(), value });
}

/// Appends the sending of a MIDI message.
pub fn push_midi(actions: &mut Vec<Action>, bytes: Vec<u8>)
    ensures
        effects(final(actions)@) == effects(old(actions)@).push((Effect::Midi { bytes: bytes@ })),
{
    push_action(actions, Action::Midi { bytes });
}

/// No actions.
pub fn no_actions() -> (actions: Vec<Action>)
    ensures
        effects(actions@) == Seq::<Effect>::empty(),
{
    let actions: Vec<Action> = Vec::new();
    assert(effects(actions@) =~= Seq::<Effect>::empty());
    actions
}

/// Whether a value stands for the number `num / den`.
pub open spec fn is_number(value: OscValue, num: int, den: int) -> bool {
    match value {
        OscValue::Ratio { num: n, den: d } => d > 0 && n * den == num * d,
        OscValue::Position { units } => units * den == num * 0x8000_0000,
        OscValue::Configured { .. } => false,
    }
}

/// Whether an effect sends the number `num / den` to an address.
pub open spec fn sends(effect: Effect, address: Seq<char>, num: int, den: int) -> bool {
    effect matches Effect::Osc { address: to, value } && to == address && is_number(value, num, den)
}

/// The constants stand for 0 and 1.
pub proof fn law_constants()
    ensures
        is_number(zero(), 0, 1),
        is_number(one(), 1, 1),
{
}

/// The model of a list of actions has one effect for each of them, in the same order and
/// with the same contents.
pub proof fn law_effects(actions: Seq<Action>, i: int)
    requires
        0 <= i < actions.len(),
    ensures
        effects(actions).len() == actions.len(),
        match actions[i] {
            Action::Osc { address, value } => effects(actions)[i] == (Effect::Osc {
                address: address@,
                value,
            }),
            Action::Midi { bytes } => effects(actions)[i] == (Effect::Midi { bytes: bytes@ }),
            Action::SaveColors => effects(actions)[i] is SaveColors,
            Action::SaveFaderColors => effects(actions)[i] is SaveFaderColors,
            Action::SaveRgbw => effects(actions)[i] is SaveRgbw,
            Action::StartBeat { epoch } => effects(actions)[i] == (Effect::StartBeat { epoch }),
        },
{
}

} // verus!
