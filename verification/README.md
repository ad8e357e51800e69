# launchpad_qlc

Bridges from a Novation Launchpad Mini MK3 to the lighting software QLC+. Pads and
buttons come in as MIDI messages; OSC messages for QLC+ and LED messages for the
Launchpad go out.

There are three bridges, each with a configuration file of its own:

- `connect`: pages of buttons, pan/tilt pads and faders;
- `windows`: also custom pads with colours chosen on the Launchpad, RGBW profiles,
  pan/tilt nudges and flash faders;
- `paps`: for live shows, with toggles, flashes, movements, a beat chase with tap
  tempo, pan/tilt, faders and custom pads.

## Layout

`src/` decides what every message does. It is written in Verus: each handler takes the
state and a MIDI message, changes the state, and returns a list of actions, and its
contract says exactly which. What holds of all states and messages stands in the
functions whose names begin with `law_`.

- `grid`, `midi`, `sysex`, `frame`: the Launchpad's numbers, messages and LEDs;
- `actions`: what a handler asks its caller to do;
- `position`: pan and tilt positions with the rounding of single precision;
- `text`, `ports`, `colors`, `config`, `pages`: text, MIDI port names, saved colours and
  what the bridges share;
- `connect`, `windows`, `paps`: the bridges.

`app/` is the program around it: configuration files, MIDI ports, UDP, saved state and
the beat thread.

    launchpad_qlc <connect|windows|paps> [config.toml]
