use bats::bats_async::command::Command;
use bats::bats_async::notification::Notification;
use bats::bats_async::new_async_commander;
use bats::bats_dsp::position::Position;
use bats::bats_lib::plugin::{MidiEvent, PluginParams};
use bats::bats_lib::session::{Session, TrackState};
use bats::bmidi::MidiMessage;

/// A plugin that stores its parameters.
#[derive(Clone, Debug, PartialEq)]
enum TestPlugin {
    Empty,
    Toof { cutoff: f32 },
}

impl TestPlugin {
    fn name(&self) -> &'static str {
        match self {
            TestPlugin::Empty => "empty",
            TestPlugin::Toof { .. } => "toof",
        }
    }
}

impl PluginParams<f32> for TestPlugin {
    fn param(&self, id: u32) -> f32 {
        match (self, id) {
            (TestPlugin::Toof { cutoff }, 2) => *cutoff,
            _ => 0.0,
        }
    }

    fn set_param(&mut self, id: u32, value: f32) {
        if let (TestPlugin::Toof { cutoff }, 2) = (self, id) {
            *cutoff = value;
        }
    }
}

fn toof() -> TestPlugin {
    TestPlugin::Toof { cutoff: 8000.0 }
}

/// A session like that of a new bats instance with 8 empty tracks.
fn new_session() -> Session<f32, TestPlugin> {
    Session {
        metronome_volume: 0.0,
        bpm: 120.0,
        armed_track: 0,
        recording_enabled: false,
        tracks: (0..8)
            .map(|_| TrackState {
                plugin: TestPlugin::Empty,
                volume: 1.0,
                sequence: Vec::new(),
            })
            .collect(),
    }
}

fn get_track_names(b: &Session<f32, TestPlugin>) -> Vec<&'static str> {
    b.tracks.iter().map(|t| t.plugin.name()).collect()
}

fn event(beat: u32, midi: MidiMessage) -> MidiEvent {
    MidiEvent {
        position: Position::with_components(beat, 0),
        midi,
    }
}

#[test]
fn none_command_undo_is_none() {
    let mut b = new_session();
    let undo = Command::Noop.execute(&mut b);
    assert!(matches!(undo, Command::Noop));
}

#[test]
fn set_metronome_volume_sets_new_volume_and_returns_old_as_undo() {
    let mut b = new_session();
    b.metronome_volume = 1.0;
    let undo = Command::SetMetronomeVolume(0.5).execute(&mut b);
    assert_eq!(b.metronome_volume, 0.5);
    assert!(matches!(undo, Command::SetMetronomeVolume(v) if v == 1.0));
}

#[test]
fn metrenome_set_bpm() {
    let mut b = new_session();
    b.bpm = 100.0;
    let undo = Command::SetTransportBpm(90.0).execute(&mut b);
    assert_eq!(b.bpm, 90.0);
    assert!(matches!(undo, Command::SetTransportBpm(v) if v == 100.0));
}

#[test]
fn set_plugin() {
    let mut b = new_session();
    b.tracks[0].plugin = toof();
    assert_eq!(
        get_track_names(&b),
        vec!["toof", "empty", "empty", "empty", "empty", "empty", "empty", "empty"]
    );
    let undo = Command::SetPlugin {
        track_id: 1,
        plugin: toof(),
    }
    .execute(&mut b);
    assert_eq!(
        get_track_names(&b),
        vec!["toof", "toof", "empty", "empty", "empty", "empty", "empty", "empty"]
    );
    assert!(matches!(undo, Command::SetPlugin { track_id: 1, plugin: TestPlugin::Empty }));

    let undo = Command::SetPlugin {
        track_id: 1,
        plugin: TestPlugin::Empty,
    }
    .execute(&mut b);
    assert_eq!(
        get_track_names(&b),
        vec!["toof", "empty", "empty", "empty", "empty", "empty", "empty", "empty"]
    );
    assert!(matches!(undo, Command::SetPlugin { track_id: 1, plugin } if plugin == toof()));
}

#[test]
fn remove_plugin_that_does_not_exist_does_nothing() {
    let mut b = new_session();
    b.tracks[0].plugin = toof();
    b.tracks[2].plugin = toof();
    let undo = Command::SetPlugin {
        track_id: 1,
        plugin: TestPlugin::Empty,
    }
    .execute(&mut b);
    assert!(matches!(undo, Command::SetPlugin { track_id: 1, plugin: TestPlugin::Empty }));
    assert_eq!(
        get_track_names(&b),
        vec!["toof", "empty", "toof", "empty", "empty", "empty", "empty", "empty"]
    );
}

#[test]
fn set_armed_track() {
    let mut b = new_session();
    b.armed_track = 100;

    let undo = Command::SetArmedTrack(10).execute(&mut b);
    assert_eq!(b.armed_track, 10);
    assert!(matches!(undo, Command::SetArmedTrack(100)));

    let undo = Command::SetArmedTrack(20).execute(&mut b);
    assert_eq!(b.armed_track, 20);
    assert!(matches!(undo, Command::SetArmedTrack(10)));

    let undo = Command::SetArmedTrack(100).execute(&mut b);
    assert_eq!(b.armed_track, 100);
    assert!(matches!(undo, Command::SetArmedTrack(20)));
}

#[test]
fn set_track_volume_sets_volume() {
    let mut b = new_session();
    b.tracks[0].volume = 0.1;
    b.tracks[1].volume = 0.2;
    let undo = Command::SetTrackVolume {
        track_id: 0,
        volume: 0.3,
    }
    .execute(&mut b);
    assert!(matches!(undo, Command::SetTrackVolume { track_id: 0, volume } if volume == 0.1));
    assert_eq!(b.tracks[0].volume, 0.3);
    assert_eq!(b.tracks[1].volume, 0.2);
}

#[test]
fn set_track_volume_on_track_that_does_not_exist_does_nothing() {
    let mut b = new_session();
    let undo = Command::SetTrackVolume {
        track_id: 1000,
        volume: 0.3,
    }
    .execute(&mut b);
    assert!(matches!(undo, Command::Noop));
}

#[test]
fn set_sequence_sets_sequence_on_track() {
    let mut b = new_session();
    b.tracks[4].sequence = vec![event(0, MidiMessage::TuneRequest)];
    let undo = Command::SetSequence {
        track_id: 4,
        sequence: vec![event(1, MidiMessage::Reset)],
    }
    .execute(&mut b);
    match undo {
        Command::SetSequence { track_id, sequence } => {
            assert_eq!(track_id, 4);
            assert_eq!(sequence, vec![event(0, MidiMessage::TuneRequest)]);
        }
        _ => panic!("expected SetSequence"),
    }
    assert_eq!(b.tracks[4].sequence, vec![event(1, MidiMessage::Reset)]);
}

#[test]
fn set_record() {
    let mut b = new_session();
    b.recording_enabled = true;

    let undo = Command::SetRecord(true).execute(&mut b);
    assert!(b.recording_enabled);
    assert!(matches!(undo, Command::SetRecord(true)));

    let undo = Command::SetRecord(false).execute(&mut b);
    assert!(!b.recording_enabled);
    assert!(matches!(undo, Command::SetRecord(true)));

    let undo = Command::SetRecord(false).execute(&mut b);
    assert!(!b.recording_enabled);
    assert!(matches!(undo, Command::SetRecord(false)));

    let undo = Command::SetRecord(true).execute(&mut b);
    assert!(b.recording_enabled);
    assert!(matches!(undo, Command::SetRecord(false)));
}

#[test]
fn set_param_goes_through_the_plugin_and_returns_old_value() {
    let mut b = new_session();
    b.tracks[3].plugin = toof();
    let undo = Command::SetParam {
        track_id: 3,
        param_id: 2,
        value: 432.0,
    }
    .execute(&mut b);
    assert_eq!(b.tracks[3].plugin, TestPlugin::Toof { cutoff: 432.0 });
    assert!(matches!(undo, Command::SetParam { track_id: 3, param_id: 2, value } if value == 8000.0));
    let undo = Command::SetParam {
        track_id: 30,
        param_id: 2,
        value: 1.0,
    }
    .execute(&mut b);
    assert!(matches!(undo, Command::Noop));
}

#[test]
fn executing_the_undo_restores_the_session() {
    let mut b = new_session();
    b.tracks[2].volume = 0.25;
    let undo = Command::SetTrackVolume {
        track_id: 2,
        volume: 0.75,
    }
    .execute(&mut b);
    let redo = undo.execute(&mut b);
    assert_eq!(b.tracks[2].volume, 0.25);
    assert!(matches!(redo, Command::SetTrackVolume { track_id: 2, volume } if volume == 0.75));
}

#[test]
fn send_commands_get_executed() {
    let (sender, receiver) = new_async_commander::<f32, TestPlugin>();
    let mut bats = new_session();
    assert_eq!(bats.tracks[0].plugin, TestPlugin::Empty);
    assert!(sender.notifications().is_empty());
    assert!(sender.send(Command::Noop));
    assert!(sender.send(Command::SetPlugin {
        track_id: 0,
        plugin: toof(),
    }));

    receiver.execute_all(&mut bats);
    let notifications = sender.notifications();
    assert_eq!(notifications.len(), 2);
    assert!(matches!(notifications[0], Notification::Undo(Command::Noop)));
    assert!(matches!(
        notifications[1],
        Notification::Undo(Command::SetPlugin {
            track_id: 0,
            plugin: TestPlugin::Empty
        })
    ));
    assert_eq!(bats.tracks[0].plugin, toof());
}

#[test]
fn only_the_armed_track_receives_midi() {
    let mut s = new_session();
    s.armed_track = 1;
    let midi = [1u8, 2, 3];
    assert_eq!(s.midi_for_track(1, &midi), &[1u8, 2, 3]);
    assert!(s.midi_for_track(0, &midi).is_empty());
    s.armed_track = 100;
    assert!(s.midi_for_track(1, &midi).is_empty());
}

#[test]
fn set_metronome_volume_sets_volume() {
    let mut b = new_session();
    b.metronome_volume = 1.0;
    let undo = Command::SetMetronomeVolume(0.5).execute(&mut b);
    assert_eq!(b.metronome_volume, 0.5);
    assert_eq!(undo, Command::SetMetronomeVolume(1.0));
}

#[test]
fn executing_a_command_notifies_its_undo() {
    let mut b = new_session();
    b.bpm = 120.0;
    let n = bats::bats_async::notification::execute_and_notify(Command::SetTransportBpm(90.0), &mut b);
    assert_eq!(b.bpm, 90.0);
    assert_eq!(n, Notification::Undo(Command::SetTransportBpm(120.0)));
}
