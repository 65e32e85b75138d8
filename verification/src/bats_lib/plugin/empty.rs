use vstd::prelude::*;

verus! {

/// A plugin that does nothing: it ignores midi, outputs silence and has no parameters.
#[derive(Copy, Clone, Debug, Default, PartialEq, Eq, Hash, Structural)]
pub struct Empty;

} // verus!
