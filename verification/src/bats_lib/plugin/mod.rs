use vstd::prelude::*;

use crate::bats_dsp::position::Position;
use crate::bmidi::MidiMessage;

pub mod empty;
pub mod metadata;
pub mod toof;

verus! {

/// A midi message at a position of the transport.
#[derive(Copy, Clone, Debug, PartialEq, Eq, Structural)]
pub struct MidiEvent {
    /// The position of the event.
    pub position: Position,
    /// The midi message.
    pub midi: MidiMessage,
}

/// Access to the parameters of an instrument plugin. Each plugin implements it for the values
/// (`V`) its parameters take, and says through the two spec functions what its parameters are.
pub trait PluginParams<V>: Sized {
    /// The value of the parameter with `id`. A plugin states it by defining this function; a
    /// plugin that does not leaves it unknown.
    closed spec fn spec_param(&self, id: u32) -> V {
        arbitrary()
    }

    /// The plugin after the parameter with `id` is set to `value`. A plugin states it by defining
    /// this function; a plugin that does not leaves it unknown.
    closed spec fn spec_set_param(&self, id: u32, value: V) -> Self {
        arbitrary()
    }

    /// Get the value of the parameter with `id`.
    fn param(&self, id: u32) -> (r: V)
        ensures
            r == self.spec_param(id),
    ;

    /// Set the parameter with `id` to `value`.
    fn set_param(&mut self, id: u32, value: V)
        ensures
            *final(self) == old(self).spec_set_param(id, value),
    ;
}

/// Setting the parameter `id` of `p` to `value` and then back to the value it had gives `p`
/// back. A plugin that keeps each parameter in a field of its own does so.
pub open spec fn restores_param<V, P: PluginParams<V>>(p: P, id: u32, value: V) -> bool {
    p.spec_set_param(id, value).spec_set_param(id, p.spec_param(id)) == p
}

/// After the parameter `id` of `p` is set to `value`, the plugin reports `value` for it. A plugin
/// that rounds or clamps values does not always do so.
pub open spec fn keeps_param<V, P: PluginParams<V>>(p: P, id: u32, value: V) -> bool {
    p.spec_set_param(id, value).spec_param(id) == value
}

/// When an instrument processes a batch of `sample_count` samples with midi events at the
/// frames `frames` (in the order given), it handles, before producing sample `i`, every event not
/// handled yet while the next event's frame is at most `i`. The result gives, for each sample,
/// how many events have been handled before it is produced: the longest prefix of `frames`
/// whose frames are all at most `i`. An event that comes after a later frame waits for it.
pub fn midi_batch_schedule(frames: &[u32], sample_count: usize) -> (r: Vec<usize>)
    requires
        sample_count <= u32::MAX + 1,
    ensures
        r@.len() == sample_count,
        forall|i: int|
            0 <= i < sample_count ==> {
                &&& #[trigger] r@[i] <= frames@.len()
                &&& forall|j: int| 0 <= j < r@[i] ==> frames@[j] <= i
                &&& r@[i] < frames@.len() ==> frames@[r@[i] as int] > i
            },
{
    let mut out: Vec<usize> = Vec::new();
    let mut handled: usize = 0;
    let mut i: usize = 0;
    while i < sample_count
        invariant
            i <= sample_count,
            sample_count <= u32::MAX + 1,
            out@.len() == i,
            handled <= frames@.len(),
            i > 0 ==> handled == out@[i - 1],
            forall|j: int| 0 <= j < handled ==> frames@[j] <= i,
            forall|k: int|
                0 <= k < i ==> {
                    &&& #[trigger] out@[k] <= frames@.len()
                    &&& forall|j: int| 0 <= j < out@[k] ==> frames@[j] <= k
                    &&& out@[k] < frames@.len() ==> frames@[out@[k] as int] > k
                },
        decreases sample_count - i,
    {
        let frame = i as u32;
        while handled < frames.len() && frames[handled] <= frame
            invariant
                handled <= frames@.len(),
                frame == i,
                forall|j: int| 0 <= j < handled ==> frames@[j] <= i,
            decreases frames@.len() - handled,
        {
            handled = handled + 1;
        }
        out.push(handled);
        i = i + 1;
    }
    out
}

} // verus!
