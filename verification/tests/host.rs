use bats::bats_lib::plugin::toof::{VoiceAction, VoiceAllocator};
use bats::bmidi::{Channel, MidiMessage, Note, U7};
use bats::host::track::{
    add_plugin_instance, find_track, plugin_instance_ids, remove_plugin_instance, remove_track,
    track_id_for_plugin_instance, PluginInstance, Track,
};
use bats::host::state::{
    attach_plugin_instances, track_summaries, PluginId, PluginInstance as ReportedInstance,
};

fn track(id: u32) -> Track<f32, &'static str> {
    Track {
        id,
        plugin_instances: Vec::new(),
        enabled: true,
        volume: 0.5,
    }
}

fn instance(instance_id: u32, plugin_id: u32) -> PluginInstance<&'static str> {
    PluginInstance {
        instance_id,
        plugin_id,
        instance: "instance",
    }
}

#[test]
fn tracks_are_found_and_removed_by_id() {
    let mut tracks = vec![track(3), track(5), track(8)];
    assert_eq!(find_track(&tracks, 5), Some(1));
    assert_eq!(find_track(&tracks, 4), None);
    let removed = remove_track(&mut tracks, 5).unwrap();
    assert_eq!(removed.id, 5);
    assert_eq!(tracks.iter().map(|t| t.id).collect::<Vec<_>>(), vec![3, 8]);
    assert!(remove_track(&mut tracks, 5).is_none());
    assert_eq!(tracks.len(), 2);
}

#[test]
fn plugin_instances_are_added_found_and_removed() {
    let mut tracks = vec![track(1), track(2)];
    assert!(add_plugin_instance(&mut tracks, 2, instance(10, 100)).is_none());
    assert!(add_plugin_instance(&mut tracks, 2, instance(11, 101)).is_none());
    assert!(add_plugin_instance(&mut tracks, 1, instance(12, 100)).is_none());
    let refused = add_plugin_instance(&mut tracks, 7, instance(13, 100));
    assert_eq!(refused.map(|p| p.instance_id), Some(13));

    assert_eq!(track_id_for_plugin_instance(&tracks, 11), Some(2));
    assert_eq!(track_id_for_plugin_instance(&tracks, 13), None);
    assert_eq!(
        plugin_instance_ids(&tracks),
        vec![(1, 12, 100), (2, 10, 100), (2, 11, 101)]
    );

    let removed = remove_plugin_instance(&mut tracks, 10).unwrap();
    assert_eq!((removed.instance_id, removed.plugin_id), (10, 100));
    assert_eq!(plugin_instance_ids(&tracks), vec![(1, 12, 100), (2, 11, 101)]);
    assert!(remove_plugin_instance(&mut tracks, 10).is_none());
}

fn note_on(note: Note, velocity: u8) -> MidiMessage {
    MidiMessage::NoteOn(Channel::Ch1, note, U7::new(velocity).unwrap())
}

#[test]
fn monophonic_voice_is_retuned() {
    let mut v = VoiceAllocator::new();
    assert!(matches!(
        v.handle_midi(&note_on(Note::C4, 100)),
        VoiceAction::Start { drop_oldest: false, note: Note::C4 }
    ));
    assert!(matches!(
        v.handle_midi(&note_on(Note::E4, 100)),
        VoiceAction::Retune(Note::E4)
    ));
    assert_eq!(v.len(), 1);
    assert_eq!(v.note(0), Note::E4);
    match v.handle_midi(&note_on(Note::E4, 0)) {
        VoiceAction::Release(ids) => assert_eq!(ids, vec![0]),
        _ => panic!("expected a release"),
    }
}

#[test]
fn polyphonic_voices_drop_the_oldest_when_full() {
    let mut v = VoiceAllocator::new();
    v.set_polyphonic(true);
    for n in 0..16u8 {
        let note = Note::from_u7(U7::new(60 + n).unwrap());
        assert!(matches!(
            v.handle_midi(&note_on(note, 100)),
            VoiceAction::Start { drop_oldest: false, .. }
        ));
    }
    assert!(matches!(
        v.handle_midi(&note_on(Note::C3, 100)),
        VoiceAction::Start { drop_oldest: true, note: Note::C3 }
    ));
    assert_eq!(v.len(), 16);
    assert_eq!(v.note(0), Note::Db4);
    assert_eq!(v.note(15), Note::C3);
    match v.handle_midi(&MidiMessage::NoteOff(Channel::Ch1, Note::E4, U7::min_value())) {
        VoiceAction::Release(ids) => assert_eq!(ids, vec![3]),
        _ => panic!("expected a release"),
    }
    let mut active = vec![true; 16];
    active[0] = false;
    active[3] = false;
    v.retain_active(&active);
    assert_eq!(v.len(), 14);
    assert_eq!(v.note(0), Note::D4);
    assert!(matches!(v.handle_midi(&MidiMessage::Reset), VoiceAction::Clear));
    assert_eq!(v.len(), 0);
    assert!(matches!(v.handle_midi(&MidiMessage::Start), VoiceAction::Nothing));
}

fn plugin_id(id: &str) -> PluginId {
    PluginId {
        namespace: "lv2".to_string(),
        id: id.to_string(),
    }
}

fn reported_instance(id: u32, track_id: u32) -> ReportedInstance {
    ReportedInstance {
        id,
        plugin_id: plugin_id("urn:synth"),
        track_id,
    }
}

#[test]
fn reported_tracks_collect_their_plugin_instances() {
    let mut running = vec![track(4), track(9)];
    running[1].enabled = false;
    let mut reported = track_summaries(&running);
    assert_eq!(reported.len(), 2);
    assert_eq!((reported[0].id, reported[0].enabled, reported[0].volume), (4, true, 0.5));
    assert_eq!((reported[1].id, reported[1].enabled), (9, false));
    assert!(reported.iter().all(|t| t.plugin_instances.is_empty()));

    attach_plugin_instances(
        &mut reported,
        vec![
            reported_instance(20, 9),
            reported_instance(21, 4),
            reported_instance(22, 5),
            reported_instance(23, 9),
        ],
    );
    assert_eq!(
        reported[0].plugin_instances,
        vec![reported_instance(21, 4)]
    );
    assert_eq!(
        reported[1].plugin_instances,
        vec![reported_instance(20, 9), reported_instance(23, 9)]
    );
}

#[test]
fn only_lv2_plugins_can_be_instantiated() {
    assert!(plugin_id("urn:synth").is_lv2());
    let other = PluginId {
        namespace: "vst".to_string(),
        id: "urn:synth".to_string(),
    };
    assert!(!other.is_lv2());
    assert!(!PluginId::default().is_lv2());
}
