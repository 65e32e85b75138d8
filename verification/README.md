Bats
====

Bats is a groovebox for Linux: a JACK client that plays instrument plugins on a
handful of tracks, with a metronome and a terminal user interface.

This crate is written in Verus. `src/` is the verified library, and every
function in it carries a contract that Verus proves:

- `bmidi`: MIDI messages, their bytes on the wire, and decoding with exact
  errors. Decoding an encoding gives the message back.
- `bats_dsp`, `bats_lib`: transport positions, the looping transport clock and
  the metronome clock, the voice allocation of the toof synthesizer, the
  scheduling of midi events within a batch of samples, and the session state
  that commands change.
- `bats_async`: the commands sent from the user interface to the audio thread;
  executing the undo of a command restores the session.
- `bats_ui`: menu selection, the selector menu and the decoding of key presses.
- `host`: bookkeeping of tracks and plugin instances by id.

`app/` is the program around the library: the JACK process callback, the
floating point signal processing (oscillators, filters, envelopes, mixing), the
plugins that render sound and the terminal drawing.

`tests/` holds the tests of the library.
