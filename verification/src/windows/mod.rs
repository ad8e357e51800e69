//! The bridge with RGBW fixtures. Besides normal, XY and fader pages it has
//!
//! - custom pages: all 64 pads send OSC messages, and their colours are chosen
//!   on the pad grid itself,
//! - RGBW pages: four faders, two columns each, for red, green, blue and white.
//!   The right column chooses the profile: the top button is the master, the six
//!   buttons below it are the fixtures. What is set on the master goes to every
//!   fixture. Switching to a fixture starts it from the master's levels,
//! - nudge pages: the grid moves pan and tilt by small steps,
//! - flash pages: the bottom row flashes a fader, the rows above set its level.
//!
//! A long press on a custom pad or above the bottom row of a flash page opens the
//! choice of a colour. Holding the bottom button of the right column opens it with the
//! next press.

pub mod behaviour;
pub mod handle;
pub mod laws;
pub mod nudge;
pub mod picker;
pub mod render;
pub mod rgbw;
pub mod state;
