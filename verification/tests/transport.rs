use bats::bats_dsp::position::Position;
use bats::bats_lib::metronome::{tick_note, MetronomeClock};
use bats::bats_lib::plugin::midi_batch_schedule;
use bats::bats_lib::position::Position as LibPosition;
use bats::bats_lib::transport::{metronome_note, TransportClock};
use bats::bmidi::Note;

fn position(beat: f64) -> Position {
    let sub_beat_scalar = (1u64 << 32) as f64;
    Position::with_components(beat.trunc() as u32, (beat.fract() * sub_beat_scalar) as u32)
}

fn lib_position(beat: f64) -> LibPosition {
    let lower = (beat.fract() * (1u64 << 32) as f64) as u32;
    LibPosition::with_components(beat.trunc() as u32, lower)
}

#[test]
fn transport_produces_beat_at_proper_time() {
    // 4 beats per second at 16 samples per second advances a quarter beat per sample.
    let mut m = TransportClock::new(10, position(0.25));
    m.populate_transport(10);
    assert_eq!(
        m.transport().clone(),
        vec![
            position(0.0),
            position(0.25),
            position(0.5),
            position(0.75),
            position(1.0),
            position(1.25),
            position(1.5),
            position(1.75),
            position(2.0),
            position(2.25),
            position(2.5),
        ]
    );
}

#[test]
fn metronome_produces_beat_at_proper_time() {
    let mut m = MetronomeClock::new(lib_position(0.25));
    let positions: Vec<LibPosition> = (0..9).map(|_| m.next_position()).collect();
    assert_eq!(
        positions,
        vec![
            lib_position(0.0),
            lib_position(0.25),
            lib_position(0.5),
            lib_position(0.75),
            lib_position(1.0),
            lib_position(1.25),
            lib_position(1.5),
            lib_position(1.75),
            lib_position(2.0),
        ]
    );
}

#[test]
fn transport_loops_after_sixteen_beats_and_continues_from_last_position() {
    let mut m = TransportClock::new_prepopulated(3, position(5.5));
    assert_eq!(
        m.transport().clone(),
        vec![position(0.0), position(5.5), position(11.0), position(0.5)]
    );
    m.populate_transport(2);
    assert_eq!(
        m.transport().clone(),
        vec![position(0.5), position(6.0), position(11.5)]
    );
    assert_eq!(m.position(), position(11.5));
    assert_eq!(m.range_for_frame(1), (position(6.0), position(11.5)));
    assert_eq!(
        m.iter_transport(),
        vec![(position(0.5), position(6.0)), (position(6.0), position(11.5))]
    );
}

#[test]
fn metronome_notes_mark_beats_measures_and_loop_start() {
    assert_eq!(metronome_note(position(0.0), position(0.25)), Some(Note::G5));
    assert_eq!(metronome_note(position(0.25), position(0.5)), None);
    assert_eq!(metronome_note(position(0.75), position(1.0)), Some(Note::C4));
    assert_eq!(metronome_note(position(3.75), position(4.0)), Some(Note::C5));
    assert_eq!(metronome_note(position(15.75), position(0.0)), Some(Note::G5));

    let mut m = TransportClock::new(4, position(0.5));
    m.populate_transport(4);
    assert_eq!(
        m.metronome_notes(),
        vec![Some(Note::G5), Some(Note::C4), None, Some(Note::C4)]
    );

    assert_eq!(tick_note(lib_position(3.5), lib_position(4.0)), Some(Note::C6));
    assert_eq!(tick_note(lib_position(4.5), lib_position(5.0)), Some(Note::C5));
    assert_eq!(tick_note(lib_position(4.0), lib_position(4.5)), None);
}

#[test]
fn midi_events_are_handled_before_their_frame() {
    assert_eq!(midi_batch_schedule(&[0, 0, 2], 4), vec![2, 2, 3, 3]);
    assert_eq!(midi_batch_schedule(&[], 3), vec![0, 0, 0]);
    // An event after a later frame waits for it.
    assert_eq!(midi_batch_schedule(&[2, 0], 3), vec![0, 0, 2]);
}

#[test]
fn metronome_ticks_regularly() {
    // At 120 BPM, it should tick twice in a second. A second is 44100 samples.
    let per_sample = position(120.0 / 60.0 / 44100.0);
    let mut m = TransportClock::new(44100, per_sample);
    m.populate_transport(44100);
    let ticks = m.metronome_notes().iter().filter(|n| n.is_some()).count();
    assert_eq!(ticks, 2);
}

#[test]
fn splitting_a_stream_into_buffers_keeps_the_positions() {
    let mut split = TransportClock::new(8, position(2.75));
    split.populate_transport(3);
    split.populate_transport(4);
    let mut whole = TransportClock::new(8, position(2.75));
    whole.populate_transport(7);
    assert_eq!(split.position(), whole.position());
    assert_eq!(split.transport()[..], whole.transport()[3..]);
}

#[test]
fn prepopulated_clock_is_a_new_clock_after_one_buffer() {
    let prepopulated = TransportClock::new_prepopulated(5, position(0.75));
    let mut populated = TransportClock::new(5, position(0.75));
    populated.populate_transport(5);
    assert!(prepopulated == populated);
}
