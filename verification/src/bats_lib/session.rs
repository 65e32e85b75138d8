use vstd::prelude::*;

use super::plugin::MidiEvent;

verus! {

/// The part of a track that commands change.
#[derive(Clone, Debug, PartialEq)]
pub struct TrackState<V, P> {
    /// The plugin.
    pub plugin: P,
    /// The track volume.
    pub volume: V,
    /// The midi sequence to play.
    pub sequence: Vec<MidiEvent>,
}

/// The state of a track as a mathematical value.
pub ghost struct TrackView<V, P> {
    pub plugin: P,
    pub volume: V,
    pub sequence: Seq<MidiEvent>,
}

impl<V, P> View for TrackState<V, P> {
    type V = TrackView<V, P>;

    open spec fn view(&self) -> TrackView<V, P> {
        TrackView { plugin: self.plugin, volume: self.volume, sequence: self.sequence@ }
    }
}

/// The part of the bats processing state that commands change. `V` is the type of volumes and
/// of the bpm, `P` the type of plugins.
#[derive(Clone, Debug, PartialEq)]
pub struct Session<V, P> {
    /// The volume of the metronome.
    pub metronome_volume: V,
    /// The beats per minute of the transport.
    pub bpm: V,
    /// The id of the track that should take user midi input.
    pub armed_track: usize,
    /// True if recording to sequence is enabled.
    pub recording_enabled: bool,
    /// The tracks.
    pub tracks: Vec<TrackState<V, P>>,
}

impl<V, P> Session<V, P> {
    /// The user midi that the track at `track_id` receives: all of `midi` for the armed track,
    /// nothing for the others.
    pub fn midi_for_track<'a, M>(&self, track_id: usize, midi: &'a [M]) -> (r: &'a [M])
        ensures
            track_id == self.armed_track ==> r@ == midi@,
            track_id != self.armed_track ==> r@ == Seq::<M>::empty(),
    {
        if track_id == self.armed_track {
            midi
        } else {
            &[]
        }
    }
}

/// The session as a mathematical value.
pub ghost struct SessionView<V, P> {
    pub metronome_volume: V,
    pub bpm: V,
    pub armed_track: usize,
    pub recording_enabled: bool,
    pub tracks: Seq<TrackView<V, P>>,
}

impl<V, P> View for Session<V, P> {
    type V = SessionView<V, P>;

    open spec fn view(&self) -> SessionView<V, P> {
        SessionView {
            metronome_volume: self.metronome_volume,
            bpm: self.bpm,
            armed_track: self.armed_track,
            recording_enabled: self.recording_enabled,
            tracks: self.tracks@.map_values(|t: TrackState<V, P>| t@),
        }
    }
}

} // verus!
