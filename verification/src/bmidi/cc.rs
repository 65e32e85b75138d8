use vstd::prelude::*;

use super::byte::U7;

verus! {

/// A MIDI control function, identified by its 7 bit controller number.
#[derive(Copy, Clone, Debug, PartialEq, Eq, Hash, Structural)]
pub struct ControlFunction(pub U7);

impl ControlFunction {
    /// The controller number of the control function.
    pub open spec fn number(self) -> u8 {
        self.0.value()
    }

    /// The control function with controller number `data`.
    pub fn from_u7(data: U7) -> (r: ControlFunction)
        ensures
            r.0 == data,
    {
        ControlFunction(data)
    }

    /// The controller number as a byte.
    pub fn to_u8(self) -> (r: u8)
        ensures
            r == self.number(),
            r < 128,
    {
        self.0.to_u8()
    }

    /// Damper pedal on/off (sustain), controller number 64.
    pub fn damper_pedal() -> (r: ControlFunction)
        ensures
            r.number() == 64,
    {
        ControlFunction(U7::from_u8_lossy(64))
    }
}

} // verus!
