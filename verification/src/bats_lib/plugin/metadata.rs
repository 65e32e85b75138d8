use vstd::prelude::*;

verus! {

/// The type for the parameter.
#[derive(Copy, Clone, Debug, PartialEq, Eq, Structural)]
pub enum ParamType {
    /// A floating point number.
    Float,
    /// A toggle where >=0.5 is on and <0.5 is off.
    Bool,
    /// A decibel value where 1.0 is 0 dB.
    Decibel,
    /// A percentage between 0% and 100%.
    Percent,
    /// A frequency represented in Hz or kHz.
    Frequency,
    /// A duration.
    Duration,
}

} // verus!
