use vstd::prelude::*;

use crate::bats_lib::plugin::{keeps_param, restores_param, MidiEvent, PluginParams};
use crate::bats_lib::session::{Session, SessionView, TrackView};

verus! {

/// Contains commands for bats. `V` is the type of volumes, of the bpm and of parameter values;
/// `P` is the type of plugins.
#[derive(Clone, Debug, PartialEq)]
pub enum Command<V, P> {
    /// No command.
    Noop,
    /// Set the metronome volume.
    SetMetronomeVolume(V),
    /// Set the BPM of the transport.
    SetTransportBpm(V),
    /// Set the plugin of a track.
    SetPlugin { track_id: usize, plugin: P },
    /// Set the armed track.
    SetArmedTrack(usize),
    /// Set the track volume.
    SetTrackVolume { track_id: usize, volume: V },
    /// Set a parameter.
    SetParam { track_id: usize, param_id: u32, value: V },
    /// Set the sequence for the track.
    SetSequence { track_id: usize, sequence: Vec<MidiEvent> },
    /// Set if recording is enabled or disabled.
    SetRecord(bool),
}

/// A command as a mathematical value.
pub ghost enum CommandView<V, P> {
    Noop,
    SetMetronomeVolume(V),
    SetTransportBpm(V),
    SetPlugin { track_id: usize, plugin: P },
    SetArmedTrack(usize),
    SetTrackVolume { track_id: usize, volume: V },
    SetParam { track_id: usize, param_id: u32, value: V },
    SetSequence { track_id: usize, sequence: Seq<MidiEvent> },
    SetRecord(bool),
}

impl<V, P> View for Command<V, P> {
    type V = CommandView<V, P>;

    open spec fn view(&self) -> CommandView<V, P> {
        match self {
            Command::Noop => CommandView::Noop,
            Command::SetMetronomeVolume(v) => CommandView::SetMetronomeVolume(*v),
            Command::SetTransportBpm(v) => CommandView::SetTransportBpm(*v),
            Command::SetPlugin { track_id, plugin } => CommandView::SetPlugin {
                track_id: *track_id,
                plugin: *plugin,
            },
            Command::SetArmedTrack(a) => CommandView::SetArmedTrack(*a),
            Command::SetTrackVolume { track_id, volume } => CommandView::SetTrackVolume {
                track_id: *track_id,
                volume: *volume,
            },
            Command::SetParam { track_id, param_id, value } => CommandView::SetParam {
                track_id: *track_id,
                param_id: *param_id,
                value: *value,
            },
            Command::SetSequence { track_id, sequence } => CommandView::SetSequence {
                track_id: *track_id,
                sequence: sequence@,
            },
            Command::SetRecord(e) => CommandView::SetRecord(*e),
        }
    }
}

/// The session after `s` with the track at `id` replaced by `t`.
pub open spec fn with_track<V, P>(s: SessionView<V, P>, id: usize, t: TrackView<V, P>) -> SessionView<
    V,
    P,
> {
    SessionView { tracks: s.tracks.update(id as int, t), ..s }
}

/// The undo command and the new session of executing `c` on `s`. A command on a track that does
/// not exist does nothing and is undone by `Noop`. `SetParam` sets the parameter through the
/// plugin and is undone by setting the parameter back to the value the plugin reported before.
pub open spec fn spec_execute<V, P: PluginParams<V>>(
    c: CommandView<V, P>,
    s: SessionView<V, P>,
) -> (CommandView<V, P>, SessionView<V, P>) {
    match c {
        CommandView::Noop => (CommandView::Noop, s),
        CommandView::SetMetronomeVolume(v) => (
            CommandView::SetMetronomeVolume(s.metronome_volume),
            SessionView { metronome_volume: v, ..s },
        ),
        CommandView::SetTransportBpm(bpm) => (
            CommandView::SetTransportBpm(s.bpm),
            SessionView { bpm: bpm, ..s },
        ),
        CommandView::SetPlugin { track_id, plugin } => if track_id < s.tracks.len() {
            (
                CommandView::SetPlugin { track_id, plugin: s.tracks[track_id as int].plugin },
                with_track(s, track_id, TrackView { plugin, ..s.tracks[track_id as int] }),
            )
        } else {
            (CommandView::Noop, s)
        },
        CommandView::SetArmedTrack(armed) => (
            CommandView::SetArmedTrack(s.armed_track),
            SessionView { armed_track: armed, ..s },
        ),
        CommandView::SetTrackVolume { track_id, volume } => if track_id < s.tracks.len() {
            (
                CommandView::SetTrackVolume { track_id, volume: s.tracks[track_id as int].volume },
                with_track(s, track_id, TrackView { volume, ..s.tracks[track_id as int] }),
            )
        } else {
            (CommandView::Noop, s)
        },
        CommandView::SetParam { track_id, param_id, value } => if track_id < s.tracks.len() {
            let plugin = s.tracks[track_id as int].plugin;
            (
                CommandView::SetParam { track_id, param_id, value: plugin.spec_param(param_id) },
                with_track(
                    s,
                    track_id,
                    TrackView {
                        plugin: plugin.spec_set_param(param_id, value),
                        ..s.tracks[track_id as int]
                    },
                ),
            )
        } else {
            (CommandView::Noop, s)
        },
        CommandView::SetSequence { track_id, sequence } => if track_id < s.tracks.len() {
            (
                CommandView::SetSequence { track_id, sequence: s.tracks[track_id as int].sequence },
                with_track(s, track_id, TrackView { sequence, ..s.tracks[track_id as int] }),
            )
        } else {
            (CommandView::Noop, s)
        },
        CommandView::SetRecord(enabled) => (
            CommandView::SetRecord(s.recording_enabled),
            SessionView { recording_enabled: enabled, ..s },
        ),
    }
}

/// Executing `c` takes the session from `s0` to `s1`.
pub open spec fn executes_to<V, P: PluginParams<V>>(
    c: CommandView<V, P>,
    s0: SessionView<V, P>,
    s1: SessionView<V, P>,
) -> bool {
    s1 == spec_execute(c, s0).1
}

/// Executing the commands `cmds` in order takes the session through the states of `trace`:
/// `trace[0]` before the first command and `trace[i + 1]` after command `i`.
pub open spec fn runs_through<V, P: PluginParams<V>>(cmds: Seq<CommandView<V, P>>, trace: Seq<SessionView<V, P>>) -> bool {
    &&& trace.len() == cmds.len() + 1
    &&& forall|i: int|
        0 <= i < cmds.len() ==> #[trigger] executes_to(cmds[i], trace[i], trace[i + 1])
}

/// Some sequence of commands, executed in order, takes the session from `s0` to `s1`.
pub open spec fn reached_by_commands<V, P: PluginParams<V>>(s0: SessionView<V, P>, s1: SessionView<V, P>) -> bool {
    exists|cmds: Seq<CommandView<V, P>>, trace: Seq<SessionView<V, P>>|
        #[trigger] runs_through(cmds, trace) && trace[0] == s0 && trace.last() == s1
}

impl<V: Copy, P: PluginParams<V>> Command<V, P> {
    /// Execute the command on `b`. It returns the command to undo the current command.
    pub fn execute(self, b: &mut Session<V, P>) -> (undo: Command<V, P>)
        ensures
            final(b).tracks@.len() == old(b).tracks@.len(),
            (undo@, final(b)@) == spec_execute(self@, old(b)@),
    {
        match self {
            Command::Noop => Command::Noop,
            Command::SetMetronomeVolume(v) => {
                let old = b.metronome_volume;
                b.metronome_volume = v;
                Command::SetMetronomeVolume(old)
            },
            Command::SetTransportBpm(bpm) => {
                let previous_bpm = b.bpm;
                b.bpm = bpm;
                Command::SetTransportBpm(previous_bpm)
            },
            Command::SetPlugin { track_id, plugin } => {
                if track_id < b.tracks.len() {
                    let mut old_plugin = plugin;
                    std::mem::swap(&mut b.tracks[track_id].plugin, &mut old_plugin);
                    proof {
                        assert(b@.tracks =~= with_track(
                            old(b)@,
                            track_id,
                            TrackView { plugin, ..old(b)@.tracks[track_id as int] },
                        ).tracks);
                    }
                    Command::SetPlugin { track_id, plugin: old_plugin }
                } else {
                    Command::Noop
                }
            },
            Command::SetTrackVolume { track_id, volume } => {
                if track_id < b.tracks.len() {
                    let undo = Command::SetTrackVolume { track_id, volume: b.tracks[track_id].volume };
                    b.tracks[track_id].volume = volume;
                    proof {
                        assert(b@.tracks =~= with_track(
                            old(b)@,
                            track_id,
                            TrackView { volume, ..old(b)@.tracks[track_id as int] },
                        ).tracks);
                    }
                    undo
                } else {
                    Command::Noop
                }
            },
            Command::SetArmedTrack(armed) => {
                let undo = Command::SetArmedTrack(b.armed_track);
                b.armed_track = armed;
                undo
            },
            Command::SetParam { track_id, param_id, value } => {
                if track_id < b.tracks.len() {
                    let undo = Command::SetParam {
                        track_id,
                        param_id,
                        value: b.tracks[track_id].plugin.param(param_id),
                    };
                    b.tracks[track_id].plugin.set_param(param_id, value);
                    proof {
                        assert(b@.tracks =~= with_track(
                            old(b)@,
                            track_id,
                            TrackView {
                                plugin: old(b)@.tracks[track_id as int].plugin.spec_set_param(
                                    param_id,
                                    value,
                                ),
                                ..old(b)@.tracks[track_id as int]
                            },
                        ).tracks);
                    }
                    undo
                } else {
                    Command::Noop
                }
            },
            Command::SetSequence { track_id, sequence } => {
                if track_id < b.tracks.len() {
                    let mut sequence = sequence;
                    std::mem::swap(&mut sequence, &mut b.tracks[track_id].sequence);
                    proof {
                        assert(b@.tracks =~= with_track(
                            old(b)@,
                            track_id,
                            TrackView { sequence: self@->SetSequence_sequence, ..old(b)@.tracks[track_id as int] },
                        ).tracks);
                    }
                    Command::SetSequence { track_id, sequence }
                } else {
                    Command::Noop
                }
            },
            Command::SetRecord(enabled) => {
                let undo = Command::SetRecord(b.recording_enabled);
                b.recording_enabled = enabled;
                undo
            },
        }
    }
}

/// Each command sets the value it names and hands back the value it replaced. A command on a
/// track sets that track's field for every track that exists, leaves the other tracks and the
/// other fields as they were, and is undone by the same command with the track's old value; only
/// a track id past the last track does nothing and is undone by `Noop`. No command adds or
/// removes a track.
pub proof fn lemma_command_effects<V, P: PluginParams<V>>(c: CommandView<V, P>, s: SessionView<V, P>)
    ensures
        ({
            let (undo, s1) = spec_execute(c, s);
            &&& s1.tracks.len() == s.tracks.len()
            &&& match c {
                CommandView::Noop => undo == CommandView::<V, P>::Noop && s1 == s,
                CommandView::SetMetronomeVolume(v) => {
                    &&& s1.metronome_volume == v
                    &&& undo == CommandView::<V, P>::SetMetronomeVolume(s.metronome_volume)
                    &&& s1 == SessionView { metronome_volume: v, ..s }
                },
                CommandView::SetTransportBpm(v) => {
                    &&& s1.bpm == v
                    &&& undo == CommandView::<V, P>::SetTransportBpm(s.bpm)
                    &&& s1 == SessionView { bpm: v, ..s }
                },
                CommandView::SetArmedTrack(a) => {
                    &&& s1.armed_track == a
                    &&& undo == CommandView::<V, P>::SetArmedTrack(s.armed_track)
                    &&& s1 == SessionView { armed_track: a, ..s }
                },
                CommandView::SetRecord(e) => {
                    &&& s1.recording_enabled == e
                    &&& undo == CommandView::<V, P>::SetRecord(s.recording_enabled)
                    &&& s1 == SessionView { recording_enabled: e, ..s }
                },
                CommandView::SetPlugin { track_id, plugin } => if track_id < s.tracks.len() {
                    &&& s1.tracks[track_id as int].plugin == plugin
                    &&& s1.tracks[track_id as int].volume == s.tracks[track_id as int].volume
                    &&& s1.tracks[track_id as int].sequence == s.tracks[track_id as int].sequence
                    &&& undo == CommandView::<V, P>::SetPlugin {
                        track_id,
                        plugin: s.tracks[track_id as int].plugin,
                    }
                    &&& forall|j: int|
                        0 <= j < s.tracks.len() && j != track_id ==> #[trigger] s1.tracks[j]
                            == s.tracks[j]
                    &&& s1.metronome_volume == s.metronome_volume && s1.bpm == s.bpm
                    &&& s1.armed_track == s.armed_track && s1.recording_enabled == s.recording_enabled
                } else {
                    undo == CommandView::<V, P>::Noop && s1 == s
                },
                CommandView::SetTrackVolume { track_id, volume } => if track_id < s.tracks.len() {
                    &&& s1.tracks[track_id as int].volume == volume
                    &&& s1.tracks[track_id as int].plugin == s.tracks[track_id as int].plugin
                    &&& s1.tracks[track_id as int].sequence == s.tracks[track_id as int].sequence
                    &&& undo == CommandView::<V, P>::SetTrackVolume {
                        track_id,
                        volume: s.tracks[track_id as int].volume,
                    }
                    &&& forall|j: int|
                        0 <= j < s.tracks.len() && j != track_id ==> #[trigger] s1.tracks[j]
                            == s.tracks[j]
                    &&& s1.metronome_volume == s.metronome_volume && s1.bpm == s.bpm
                    &&& s1.armed_track == s.armed_track && s1.recording_enabled == s.recording_enabled
                } else {
                    undo == CommandView::<V, P>::Noop && s1 == s
                },
                CommandView::SetParam { track_id, param_id, value } => if track_id
                    < s.tracks.len() {
                    &&& s1.tracks[track_id as int].plugin == s.tracks[track_id as int].plugin.spec_set_param(
                        param_id,
                        value,
                    )
                    &&& s1.tracks[track_id as int].volume == s.tracks[track_id as int].volume
                    &&& s1.tracks[track_id as int].sequence == s.tracks[track_id as int].sequence
                    &&& undo == CommandView::<V, P>::SetParam {
                        track_id,
                        param_id,
                        value: s.tracks[track_id as int].plugin.spec_param(param_id),
                    }
                    &&& forall|j: int|
                        0 <= j < s.tracks.len() && j != track_id ==> #[trigger] s1.tracks[j]
                            == s.tracks[j]
                    &&& s1.metronome_volume == s.metronome_volume && s1.bpm == s.bpm
                    &&& s1.armed_track == s.armed_track && s1.recording_enabled == s.recording_enabled
                } else {
                    undo == CommandView::<V, P>::Noop && s1 == s
                },
                CommandView::SetSequence { track_id, sequence } => if track_id < s.tracks.len() {
                    &&& s1.tracks[track_id as int].sequence == sequence
                    &&& s1.tracks[track_id as int].plugin == s.tracks[track_id as int].plugin
                    &&& s1.tracks[track_id as int].volume == s.tracks[track_id as int].volume
                    &&& undo == CommandView::<V, P>::SetSequence {
                        track_id,
                        sequence: s.tracks[track_id as int].sequence,
                    }
                    &&& forall|j: int|
                        0 <= j < s.tracks.len() && j != track_id ==> #[trigger] s1.tracks[j]
                            == s.tracks[j]
                    &&& s1.metronome_volume == s.metronome_volume && s1.bpm == s.bpm
                    &&& s1.armed_track == s.armed_track && s1.recording_enabled == s.recording_enabled
                } else {
                    undo == CommandView::<V, P>::Noop && s1 == s
                },
            }
        }),
{
}

/// Executing the undo command that a command returns restores the session. For `SetParam` this
/// needs the plugin to come back when its parameter is set back to the value it reported.
pub proof fn lemma_undo_restores<V, P: PluginParams<V>>(c: CommandView<V, P>, s: SessionView<V, P>)
    requires
        c matches CommandView::SetParam { track_id, param_id, value } ==> (track_id < s.tracks.len()
            ==> restores_param(s.tracks[track_id as int].plugin, param_id, value)),
    ensures
        spec_execute(spec_execute(c, s).0, spec_execute(c, s).1).1 == s,
{
    let (undo, s1) = spec_execute(c, s);
    match c {
        CommandView::SetPlugin { track_id, plugin } => {
            if track_id < s.tracks.len() {
                assert(spec_execute(undo, s1).1.tracks =~= s.tracks);
            }
        },
        CommandView::SetTrackVolume { track_id, volume } => {
            if track_id < s.tracks.len() {
                assert(spec_execute(undo, s1).1.tracks =~= s.tracks);
            }
        },
        CommandView::SetParam { track_id, param_id, value } => {
            if track_id < s.tracks.len() {
                assert(spec_execute(undo, s1).1.tracks =~= s.tracks);
            }
        },
        CommandView::SetSequence { track_id, sequence } => {
            if track_id < s.tracks.len() {
                assert(spec_execute(undo, s1).1.tracks =~= s.tracks);
            }
        },
        _ => {},
    }
}

/// Undoing the undo of a command redoes the command: executing the undo returns the command
/// itself, unless the command did nothing (its undo is `Noop`). For `SetParam` this needs the
/// plugin to report the value it was given.
pub proof fn lemma_undo_of_undo<V, P: PluginParams<V>>(c: CommandView<V, P>, s: SessionView<V, P>)
    requires
        c matches CommandView::SetParam { track_id, param_id, value } ==> (track_id < s.tracks.len()
            ==> keeps_param(s.tracks[track_id as int].plugin, param_id, value)),
    ensures
        ({
            let (undo, s1) = spec_execute(c, s);
            undo is Noop || spec_execute(undo, s1).0 == c
        }),
{
}

} // verus!
