use bats::bmidi::{
    Channel, ControlFunction, FromBytesError, MidiMessage, Note, ToSliceError, U14, U7,
};

#[test]
fn try_from() {
    assert_eq!(
        MidiMessage::from_bytes([].as_ref()),
        Err(FromBytesError::NoBytes),
        "no bytes produces an error",
    );
    assert_eq!(
        MidiMessage::from_bytes([0x00].as_ref()),
        Err(FromBytesError::UnexpectedDataByte),
        "no status byte produces an error",
    );
    assert_eq!(
        MidiMessage::from_bytes([0x84].as_ref()),
        Err(FromBytesError::NotEnoughBytes),
        "NoteOff event produces errors with only 1 byte",
    );
    assert_eq!(
        MidiMessage::from_bytes([0x84, 64].as_ref()),
        Err(FromBytesError::NotEnoughBytes),
        "NoteOff event produces errors with only 2 bytes",
    );
    assert_eq!(
        MidiMessage::from_bytes([0x84, 64, 100].as_ref()),
        Ok(MidiMessage::NoteOff(Channel::Ch5, Note::E4, U7::new(100).unwrap())),
        "NoteOff event is decoded.",
    );

    assert_eq!(
        MidiMessage::from_bytes([0x94].as_ref()),
        Err(FromBytesError::NotEnoughBytes),
        "NoteOn event produces errors with only 1 byte",
    );
    assert_eq!(
        MidiMessage::from_bytes([0x94, 64].as_ref()),
        Err(FromBytesError::NotEnoughBytes),
        "NoteOn event produces errors with only 2 bytes",
    );
    assert_eq!(
        MidiMessage::from_bytes([0x94, 64, 100].as_ref()),
        Ok(MidiMessage::NoteOn(Channel::Ch5, Note::E4, U7::new(100).unwrap())),
        "NoteOn event is decoded.",
    );
    assert_eq!(
        MidiMessage::from_bytes([0x94, 64, 0].as_ref()),
        Ok(MidiMessage::NoteOff(Channel::Ch5, Note::E4, U7::new(0).unwrap())),
        "NoteOn message with 0 veloctiy decodes as NoteOff",
    );

    assert_eq!(
        MidiMessage::from_bytes([0xF0, 4, 8, 12, 16, 0xF7].as_ref()),
        Ok(MidiMessage::SysEx),
        "SysEx message is decoded and data bytes are thrown away.",
    );
    assert_eq!(
        MidiMessage::from_bytes([0xF0, 3, 6, 9, 12, 15, 0xF7, 125].as_ref()),
        Ok(MidiMessage::SysEx),
        "SysEx message does not include bytes after the end byte.",
    );

    assert_eq!(
        MidiMessage::from_bytes([0xE4].as_ref()),
        Err(FromBytesError::NotEnoughBytes),
        "PitchBend with single byte produces error.",
    );
    assert_eq!(
        MidiMessage::from_bytes([0xE4, 64].as_ref()),
        Err(FromBytesError::NotEnoughBytes),
        "PitchBend with only 2 bytes produces error.",
    );
    assert_eq!(
        MidiMessage::from_bytes([0xE4, 64, 100].as_ref()),
        Ok(MidiMessage::PitchBendChange(Channel::Ch5, U14::new(12864).unwrap())),
        "PitchBendChange is decoded.",
    );
}

#[test]
fn copy_to_slice() {
    let b = {
        let mut b = [0u8; 6];
        let bytes_copied =
            MidiMessage::PolyphonicKeyPressure(Channel::Ch10, Note::A6, U7::new(43).unwrap())
                .copy_to_slice(&mut b)
                .unwrap();
        assert_eq!(bytes_copied, 3);
        b
    };
    assert_eq!(b, [0xA9, 93, 43, 0, 0, 0]);
}

#[test]
fn copy_to_slice_sysex() {
    let b = {
        let mut b = [0u8; 8];
        let bytes_copied = MidiMessage::SysEx.copy_to_slice(&mut b).unwrap();
        assert_eq!(bytes_copied, 2);
        b
    };
    assert_eq!(b, [0xF0, 0xF7, 0, 0, 0, 0, 0, 0]);
}

#[test]
fn channel() {
    assert_eq!(
        MidiMessage::ControlChange(
            Channel::Ch8,
            ControlFunction::damper_pedal(),
            U7::new(55).unwrap()
        )
        .channel(),
        Some(Channel::Ch8)
    );
    assert_eq!(MidiMessage::Start.channel(), None);
}

#[test]
fn copy_to_slice_too_small_leaves_slice_unchanged() {
    let mut b = [7u8; 2];
    let msg = MidiMessage::NoteOn(Channel::Ch1, Note::C4, U7::max_value());
    assert_eq!(msg.copy_to_slice(&mut b), Err(ToSliceError::BufferTooSmall));
    assert_eq!(b, [7, 7]);
}

#[test]
fn encoding_then_decoding_gives_the_message_back() {
    let messages = [
        MidiMessage::NoteOn(Channel::Ch1, Note::C3, U7::max_value()),
        MidiMessage::NoteOff(Channel::Ch2, Note::A3, U7::min_value()),
        MidiMessage::PolyphonicKeyPressure(Channel::Ch3, Note::B1, U7::max_value()),
        MidiMessage::ControlChange(Channel::Ch4, ControlFunction::damper_pedal(), U7::max_value()),
        MidiMessage::ProgramChange(Channel::Ch5, U7::min_value()),
        MidiMessage::ChannelPressure(Channel::Ch6, U7::max_value()),
        MidiMessage::PitchBendChange(Channel::Ch7, U14::max_value()),
        MidiMessage::SysEx,
        MidiMessage::MidiTimeCode(U7::max_value()),
        MidiMessage::SongPositionPointer(U14::min_value()),
        MidiMessage::SongSelect(U7::min_value()),
        MidiMessage::Reserved(0xF4),
        MidiMessage::TuneRequest,
        MidiMessage::TimingClock,
        MidiMessage::Start,
        MidiMessage::Continue,
        MidiMessage::Stop,
        MidiMessage::ActiveSensing,
        MidiMessage::Reset,
    ];
    for m in messages.iter() {
        let bytes = m.to_vec();
        assert_eq!(bytes.len(), m.bytes_size());
        assert_eq!(bytes.len(), m.wire_size());
        assert_eq!(MidiMessage::from_bytes(&bytes), Ok(*m));
    }
}

#[test]
fn exact_encodings() {
    assert_eq!(
        MidiMessage::PitchBendChange(Channel::Ch5, U14::new(12864).unwrap()).to_vec(),
        vec![0xE4, 64, 100]
    );
    assert_eq!(
        MidiMessage::NoteOn(Channel::Ch16, Note::G9, U7::new(1).unwrap()).to_vec(),
        vec![0x9F, 127, 1]
    );
    assert_eq!(MidiMessage::Reserved(0xFD).to_vec(), vec![0xFD]);
}

#[test]
fn decoding_errors() {
    assert_eq!(
        MidiMessage::from_bytes(&[0xF7]),
        Err(FromBytesError::UnexpectedEndSysExByte)
    );
    assert_eq!(
        MidiMessage::from_bytes(&[0x84, 0x80, 1]),
        Err(FromBytesError::UnexpectedStatusByte)
    );
    // A NoteOn looks at its velocity first.
    assert_eq!(
        MidiMessage::from_bytes(&[0x94, 0x80]),
        Err(FromBytesError::NotEnoughBytes)
    );
    assert_eq!(
        MidiMessage::from_bytes(&[0x94, 0x80, 1]),
        Err(FromBytesError::UnexpectedStatusByte)
    );
    assert_eq!(MidiMessage::from_bytes(&[0xF9]), Ok(MidiMessage::Reserved(0xF9)));
    assert_eq!(MidiMessage::from_bytes(&[0xFF, 1, 2]), Ok(MidiMessage::Reset));
}

#[test]
fn channel_indices_and_numbers() {
    assert_eq!(Channel::from_index(0), Ok(Channel::Ch1));
    assert_eq!(Channel::from_index(15), Ok(Channel::Ch16));
    assert_eq!(Channel::from_index(16), Err(FromBytesError::ChannelOutOfRange));
    assert_eq!(Channel::Ch10.index(), 9);
    assert_eq!(Channel::Ch10.number(), 10);
}

#[test]
fn data_bytes_are_range_checked() {
    assert_eq!(U7::new(128), Err(FromBytesError::DataByteOutOfRange));
    assert_eq!(U7::new(127).unwrap().to_u8(), 127);
    assert_eq!(U7::from_u8_lossy(0xFF).to_u8(), 0x7F);
    assert_eq!(U14::new(16384), Err(FromBytesError::U14OutOfRange));
    assert_eq!(Note::from_u7(U7::new(60).unwrap()), Note::C4);
    assert_eq!(Note::E4.to_u8(), 64);
    assert_eq!(ControlFunction::damper_pedal().to_u8(), 64);
}
