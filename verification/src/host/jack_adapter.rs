use vstd::prelude::*;

verus! {

/// Holds all the ports by name.
#[derive(Clone, Debug, PartialEq, Eq)]
pub struct PortNames {
    /// The audio output ports.
    pub audio_outputs: [String; 2],
    /// The midi input port.
    pub midi_input: String,
}

} // verus!
