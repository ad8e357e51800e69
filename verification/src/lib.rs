//! Decision logic of a bridge between a Novation Launchpad Mini MK3 and the
//! lighting controller QLC+: MIDI messages come in, LED frames and OSC messages
//! go out. Sockets, MIDI ports, clocks and files belong to the caller.

pub mod actions;
pub mod colors;
pub mod config;
pub mod connect;
pub mod frame;
pub mod grid;
pub mod midi;
pub mod pages;
pub mod paps;
pub mod ports;
pub mod position;
pub mod sysex;
pub mod text;
pub mod windows;
