//! The bridge for a live show. The top row switches between pages, each of one kind:
//!
//! - RGB: pads switch fixtures on and off,
//! - flash: pads are on while they are held,
//! - move: pads start movements,
//! - beat: a chase through colour palettes in time with a tapped tempo,
//! - XY: the grid is a pan/tilt pad,
//! - fader: every column is a dimmer of eight steps,
//! - custom: all pads send OSC messages, and a long press chooses a pad's colour,
//! - normal: single pads send OSC messages.
//!
//! On XY and beat pages the right column has functions of its own.

pub mod beat;
pub mod behaviour;
pub mod handle;
pub mod laws;
pub mod leds;
pub mod picker;
pub mod render;
pub mod state;
