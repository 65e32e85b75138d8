use vstd::prelude::*;

use super::byte::{U14, U7};
use super::cc::ControlFunction;
use super::error::{FromBytesError, ToSliceError};
use super::note::Note;

verus! {

broadcast use super::byte::group_byte_lemmas;

/// Specifies the velocity of an action (often key press, release, or aftertouch).
pub type Velocity = U7;

/// Specifies the value of a MIDI control.
pub type ControlValue = U7;

/// Specifies a program. Sometimes known as patch.
pub type ProgramNumber = U7;

/// A 14bit value specifying the pitch bend. Neutral is 8192.
pub type PitchBend = U14;

/// 14 bit value that holds the number of MIDI beats (1 beat = six MIDI clocks) since the start of the song.
pub type SongPosition = U14;

/// A song or sequence.
pub type Song = U7;

/// The MIDI channel. There are 16 channels. They are numbered between 1 and 16
/// inclusive, or indexed between 0 and 15 inclusive.
#[derive(Copy, Clone, Debug, PartialEq, Eq, Hash, Structural)]
pub enum Channel {
    Ch1,
    Ch2,
    Ch3,
    Ch4,
    Ch5,
    Ch6,
    Ch7,
    Ch8,
    Ch9,
    Ch10,
    Ch11,
    Ch12,
    Ch13,
    Ch14,
    Ch15,
    Ch16,
}

impl Channel {
    /// The index of the channel, between 0 and 15 inclusive.
    pub open spec fn spec_index(self) -> u8 {
        match self {
            Channel::Ch1 => 0,
            Channel::Ch2 => 1,
            Channel::Ch3 => 2,
            Channel::Ch4 => 3,
            Channel::Ch5 => 4,
            Channel::Ch6 => 5,
            Channel::Ch7 => 6,
            Channel::Ch8 => 7,
            Channel::Ch9 => 8,
            Channel::Ch10 => 9,
            Channel::Ch11 => 10,
            Channel::Ch12 => 11,
            Channel::Ch13 => 12,
            Channel::Ch14 => 13,
            Channel::Ch15 => 14,
            Channel::Ch16 => 15,
        }
    }

    /// The channel with index `i`. Only meaningful for `i < 16`.
    pub open spec fn spec_from_index(i: u8) -> Channel {
        match i {
            0 => Channel::Ch1,
            1 => Channel::Ch2,
            2 => Channel::Ch3,
            3 => Channel::Ch4,
            4 => Channel::Ch5,
            5 => Channel::Ch6,
            6 => Channel::Ch7,
            7 => Channel::Ch8,
            8 => Channel::Ch9,
            9 => Channel::Ch10,
            10 => Channel::Ch11,
            11 => Channel::Ch12,
            12 => Channel::Ch13,
            13 => Channel::Ch14,
            14 => Channel::Ch15,
            _ => Channel::Ch16,
        }
    }

    /// Get a MIDI channel from an index that is between 0 and 15 inclusive.
    pub fn from_index(i: u8) -> (r: Result<Channel, FromBytesError>)
        ensures
            i < 16 ==> r == Ok::<Channel, FromBytesError>(Channel::spec_from_index(i)),
            i < 16 ==> Channel::spec_from_index(i).spec_index() == i,
            i >= 16 ==> r == Err::<Channel, FromBytesError>(FromBytesError::ChannelOutOfRange),
    {
        match i {
            0 => Ok(Channel::Ch1),
            1 => Ok(Channel::Ch2),
            2 => Ok(Channel::Ch3),
            3 => Ok(Channel::Ch4),
            4 => Ok(Channel::Ch5),
            5 => Ok(Channel::Ch6),
            6 => Ok(Channel::Ch7),
            7 => Ok(Channel::Ch8),
            8 => Ok(Channel::Ch9),
            9 => Ok(Channel::Ch10),
            10 => Ok(Channel::Ch11),
            11 => Ok(Channel::Ch12),
            12 => Ok(Channel::Ch13),
            13 => Ok(Channel::Ch14),
            14 => Ok(Channel::Ch15),
            15 => Ok(Channel::Ch16),
            _ => Err(FromBytesError::ChannelOutOfRange),
        }
    }

    /// The index of this midi channel. The returned value is between 0 and 15 inclusive.
    pub fn index(self) -> (r: u8)
        ensures
            r == self.spec_index(),
            r < 16,
            Channel::spec_from_index(r) == self,
    {
        match self {
            Channel::Ch1 => 0,
            Channel::Ch2 => 1,
            Channel::Ch3 => 2,
            Channel::Ch4 => 3,
            Channel::Ch5 => 4,
            Channel::Ch6 => 5,
            Channel::Ch7 => 6,
            Channel::Ch8 => 7,
            Channel::Ch9 => 8,
            Channel::Ch10 => 9,
            Channel::Ch11 => 10,
            Channel::Ch12 => 11,
            Channel::Ch13 => 12,
            Channel::Ch14 => 13,
            Channel::Ch15 => 14,
            Channel::Ch16 => 15,
        }
    }

    /// The number of this midi channel. The returned value is between 1 and 16 inclusive.
    pub fn number(self) -> (r: u8)
        ensures
            r == self.spec_index() + 1,
            1 <= r <= 16,
    {
        self.index() + 1
    }
}

/// Holds information based on the Midi 1.0 spec.
#[derive(Copy, Clone, Debug, PartialEq, Eq, Structural)]
pub enum MidiMessage {
    /// This message is sent when a note is released (ended).
    NoteOff(Channel, Note, Velocity),
    /// This message is sent when a note is depressed (start).
    NoteOn(Channel, Note, Velocity),
    /// This message is most often sent by pressing down on the key after it "bottoms out".
    PolyphonicKeyPressure(Channel, Note, Velocity),
    /// This message is sent when a controller value changes. Controllers include devices such as
    /// pedals and levers. Controller numbers 120-127 are reserved as "Channel Mode Messages".
    ControlChange(Channel, ControlFunction, ControlValue),
    /// This message is sent when the patch number changes.
    ProgramChange(Channel, ProgramNumber),
    /// The single greatest pressure value (of all the current depressed keys).
    ChannelPressure(Channel, Velocity),
    /// A change in the pitch bender, measured by a fourteen bit value. Center is 8192.
    PitchBendChange(Channel, PitchBend),
    /// A sysex message. The data bytes are not stored.
    SysEx,
    /// MIDI Time Code Quarter Frame, in the raw format 0nnndddd.
    MidiTimeCode(U7),
    /// The number of MIDI beats (1 beat = six MIDI clocks) since the start of the song.
    SongPositionPointer(SongPosition),
    /// The Song Select specifies which sequence or song is to be played.
    SongSelect(Song),
    /// The u8 data holds the status byte.
    Reserved(u8),
    /// Upon receiving a Tune Request, all analog synthesizers should tune their oscillators.
    TuneRequest,
    /// Timing Clock. Sent 24 times per quarter note when synchronization is required.
    TimingClock,
    /// Start the current sequence playing.
    Start,
    /// Continue at the point the sequence was Stopped.
    Continue,
    /// Stop the current sequence.
    Stop,
    /// Tells the receiver that a connection is alive.
    ActiveSensing,
    /// Reset all receivers in the system to power-up status.
    Reset,
}

/// True for the status bytes that the MIDI 1.0 spec leaves undefined.
pub open spec fn is_reserved_status(b: u8) -> bool {
    b == 0xF4 || b == 0xF5 || b == 0xF9 || b == 0xFD
}

/// The data byte at position `i` of `bytes`, or the error that decoding reports when it is
/// missing or is not a data byte.
pub open spec fn spec_data_byte(bytes: Seq<u8>, i: int) -> Result<U7, FromBytesError> {
    if i >= bytes.len() {
        Err(FromBytesError::NotEnoughBytes)
    } else if bytes[i] >= 128 {
        Err(FromBytesError::UnexpectedStatusByte)
    } else {
        Ok(U7::from_value(bytes[i]))
    }
}

/// The 14 bit value whose low 7 bits are `lower` and high 7 bits are `higher`.
pub open spec fn spec_combine(lower: U7, higher: U7) -> U14 {
    U14::from_value((lower.value() + 128 * higher.value()) as u16)
}

/// Apply `f` to one decoded data byte, passing errors through.
pub open spec fn with_one(
    a: Result<U7, FromBytesError>,
    f: spec_fn(U7) -> MidiMessage,
) -> Result<MidiMessage, FromBytesError> {
    match a {
        Ok(x) => Ok(f(x)),
        Err(e) => Err(e),
    }
}

/// Apply `f` to two decoded data bytes, passing the first error through.
pub open spec fn with_two(
    a: Result<U7, FromBytesError>,
    b: Result<U7, FromBytesError>,
    f: spec_fn(U7, U7) -> MidiMessage,
) -> Result<MidiMessage, FromBytesError> {
    match a {
        Err(e) => Err(e),
        Ok(x) => match b {
            Err(e) => Err(e),
            Ok(y) => Ok(f(x, y)),
        },
    }
}

/// The system message (status byte 0xF0 to 0xFF) that `bytes` decodes to.
pub open spec fn spec_system_message(bytes: Seq<u8>) -> Result<MidiMessage, FromBytesError> {
    let status = bytes[0];
    let a = spec_data_byte(bytes, 1);
    let b = spec_data_byte(bytes, 2);
    if status == 0xF0 {
        Ok(MidiMessage::SysEx)
    } else if status == 0xF1 {
        with_one(a, |x: U7| MidiMessage::MidiTimeCode(x))
    } else if status == 0xF2 {
        with_two(a, b, |x: U7, y: U7| MidiMessage::SongPositionPointer(spec_combine(x, y)))
    } else if status == 0xF3 {
        with_one(a, |x: U7| MidiMessage::SongSelect(x))
    } else if is_reserved_status(status) {
        Ok(MidiMessage::Reserved(status))
    } else if status == 0xF6 {
        Ok(MidiMessage::TuneRequest)
    } else if status == 0xF7 {
        Err(FromBytesError::UnexpectedEndSysExByte)
    } else if status == 0xF8 {
        Ok(MidiMessage::TimingClock)
    } else if status == 0xFA {
        Ok(MidiMessage::Start)
    } else if status == 0xFB {
        Ok(MidiMessage::Continue)
    } else if status == 0xFC {
        Ok(MidiMessage::Stop)
    } else if status == 0xFE {
        Ok(MidiMessage::ActiveSensing)
    } else {
        Ok(MidiMessage::Reset)
    }
}

/// The result of decoding `bytes` as a MIDI message. The high nibble of the status byte selects
/// the message, the low nibble the channel. A NoteOn with velocity 0 decodes as a NoteOff, and a
/// SysEx message keeps none of its data bytes.
pub open spec fn spec_from_bytes(bytes: Seq<u8>) -> Result<MidiMessage, FromBytesError> {
    if bytes.len() == 0 {
        Err(FromBytesError::NoBytes)
    } else if bytes[0] < 0x80 {
        Err(FromBytesError::UnexpectedDataByte)
    } else {
        let status = bytes[0];
        let chan = Channel::spec_from_index(status % 16);
        let a = spec_data_byte(bytes, 1);
        let b = spec_data_byte(bytes, 2);
        let kind = status / 16;
        if kind == 8 {
            with_two(a, b, |x: U7, y: U7| MidiMessage::NoteOff(chan, Note::from_number(x.value()), y))
        } else if kind == 9 {
            match b {
                Err(e) => Err(e),
                Ok(v) => if v.value() == 0 {
                    with_one(
                        a,
                        |x: U7| MidiMessage::NoteOff(chan, Note::from_number(x.value()), U7::from_value(0)),
                    )
                } else {
                    with_one(a, |x: U7| MidiMessage::NoteOn(chan, Note::from_number(x.value()), v))
                },
            }
        } else if kind == 10 {
            with_two(
                a,
                b,
                |x: U7, y: U7| MidiMessage::PolyphonicKeyPressure(chan, Note::from_number(x.value()), y),
            )
        } else if kind == 11 {
            with_two(a, b, |x: U7, y: U7| MidiMessage::ControlChange(chan, ControlFunction(x), y))
        } else if kind == 12 {
            with_one(a, |x: U7| MidiMessage::ProgramChange(chan, x))
        } else if kind == 13 {
            with_one(a, |x: U7| MidiMessage::ChannelPressure(chan, x))
        } else if kind == 14 {
            with_two(a, b, |x: U7, y: U7| MidiMessage::PitchBendChange(chan, spec_combine(x, y)))
        } else {
            spec_system_message(bytes)
        }
    }
}

impl MidiMessage {
    /// The bytes that encode the message on the wire.
    pub open spec fn spec_bytes(self) -> Seq<u8> {
        match self {
            MidiMessage::NoteOff(c, n, v) => seq![(0x80 + c.spec_index()) as u8, n.number(), v.value()],
            MidiMessage::NoteOn(c, n, v) => seq![(0x90 + c.spec_index()) as u8, n.number(), v.value()],
            MidiMessage::PolyphonicKeyPressure(c, n, v) => seq![
                (0xA0 + c.spec_index()) as u8,
                n.number(),
                v.value(),
            ],
            MidiMessage::ControlChange(c, f, v) => seq![(0xB0 + c.spec_index()) as u8, f.number(), v.value()],
            MidiMessage::ProgramChange(c, p) => seq![(0xC0 + c.spec_index()) as u8, p.value()],
            MidiMessage::ChannelPressure(c, v) => seq![(0xD0 + c.spec_index()) as u8, v.value()],
            MidiMessage::PitchBendChange(c, b) => seq![
                (0xE0 + c.spec_index()) as u8,
                (b.value() % 128) as u8,
                (b.value() / 128) as u8,
            ],
            MidiMessage::SysEx => seq![0xF0u8, 0xF7u8],
            MidiMessage::MidiTimeCode(a) => seq![0xF1u8, a.value()],
            MidiMessage::SongPositionPointer(a) => seq![
                0xF2u8,
                (a.value() % 128) as u8,
                (a.value() / 128) as u8,
            ],
            MidiMessage::SongSelect(a) => seq![0xF3u8, a.value()],
            MidiMessage::Reserved(a) => seq![a],
            MidiMessage::TuneRequest => seq![0xF6u8],
            MidiMessage::TimingClock => seq![0xF8u8],
            MidiMessage::Start => seq![0xFAu8],
            MidiMessage::Continue => seq![0xFBu8],
            MidiMessage::Stop => seq![0xFCu8],
            MidiMessage::ActiveSensing => seq![0xFEu8],
            MidiMessage::Reset => seq![0xFFu8],
        }
    }

    /// The channel of the message, for the message types that have one.
    pub open spec fn spec_channel(self) -> Option<Channel> {
        match self {
            MidiMessage::NoteOff(c, ..) => Some(c),
            MidiMessage::NoteOn(c, ..) => Some(c),
            MidiMessage::PolyphonicKeyPressure(c, ..) => Some(c),
            MidiMessage::ControlChange(c, ..) => Some(c),
            MidiMessage::ProgramChange(c, ..) => Some(c),
            MidiMessage::ChannelPressure(c, ..) => Some(c),
            MidiMessage::PitchBendChange(c, ..) => Some(c),
            _ => None,
        }
    }

    /// Every data value of the message fits in its bit width. This holds of every message built
    /// at run time, since `U7` and `U14` keep their range as a type invariant.
    pub open spec fn wf(self) -> bool {
        match self {
            MidiMessage::NoteOff(_, _, v) => v.valid(),
            MidiMessage::NoteOn(_, _, v) => v.valid(),
            MidiMessage::PolyphonicKeyPressure(_, _, v) => v.valid(),
            MidiMessage::ControlChange(_, f, v) => f.0.valid() && v.valid(),
            MidiMessage::ProgramChange(_, p) => p.valid(),
            MidiMessage::ChannelPressure(_, v) => v.valid(),
            MidiMessage::PitchBendChange(_, b) => b.valid(),
            MidiMessage::MidiTimeCode(a) => a.valid(),
            MidiMessage::SongPositionPointer(a) => a.valid(),
            MidiMessage::SongSelect(a) => a.valid(),
            _ => true,
        }
    }

    /// Construct a midi message from bytes.
    pub fn from_bytes(bytes: &[u8]) -> (r: Result<MidiMessage, FromBytesError>)
        ensures
            r == spec_from_bytes(bytes@),
    {
        if bytes.len() == 0 {
            return Err(FromBytesError::NoBytes);
        }
        if !is_status_byte(bytes[0]) {
            return Err(FromBytesError::UnexpectedDataByte);
        }
        let status = bytes[0];
        let chan = Channel::from_index(status % 16)?;
        let data_a = if bytes.len() > 1 {
            valid_data_byte(bytes[1])
        } else {
            Err(FromBytesError::NotEnoughBytes)
        };
        let data_b = if bytes.len() > 2 {
            valid_data_byte(bytes[2])
        } else {
            Err(FromBytesError::NotEnoughBytes)
        };
        assert(data_a == spec_data_byte(bytes@, 1));
        assert(data_b == spec_data_byte(bytes@, 2));
        match status / 16 {
            8 => Ok(MidiMessage::NoteOff(chan, Note::from_u7(data_a?), data_b?)),
            9 => {
                let velocity = data_b?;
                if velocity.to_u8() == 0 {
                    Ok(MidiMessage::NoteOff(chan, Note::from_u7(data_a?), U7::min_value()))
                } else {
                    Ok(MidiMessage::NoteOn(chan, Note::from_u7(data_a?), velocity))
                }
            },
            10 => Ok(MidiMessage::PolyphonicKeyPressure(chan, Note::from_u7(data_a?), data_b?)),
            11 => Ok(MidiMessage::ControlChange(chan, ControlFunction::from_u7(data_a?), data_b?)),
            12 => Ok(MidiMessage::ProgramChange(chan, data_a?)),
            13 => Ok(MidiMessage::ChannelPressure(chan, data_a?)),
            14 => Ok(MidiMessage::PitchBendChange(chan, combine_data(data_a?, data_b?))),
            _ => match status {
                0xF0 => Ok(MidiMessage::SysEx),
                0xF1 => Ok(MidiMessage::MidiTimeCode(data_a?)),
                0xF2 => Ok(MidiMessage::SongPositionPointer(combine_data(data_a?, data_b?))),
                0xF3 => Ok(MidiMessage::SongSelect(data_a?)),
                0xF4 | 0xF5 => Ok(MidiMessage::Reserved(status)),
                0xF6 => Ok(MidiMessage::TuneRequest),
                0xF7 => Err(FromBytesError::UnexpectedEndSysExByte),
                0xF8 => Ok(MidiMessage::TimingClock),
                0xF9 => Ok(MidiMessage::Reserved(status)),
                0xFA => Ok(MidiMessage::Start),
                0xFB => Ok(MidiMessage::Continue),
                0xFC => Ok(MidiMessage::Stop),
                0xFD => Ok(MidiMessage::Reserved(status)),
                0xFE => Ok(MidiMessage::ActiveSensing),
                _ => Ok(MidiMessage::Reset),
            },
        }
    }

    /// The number of bytes the MIDI message takes when converted to bytes.
    pub fn bytes_size(&self) -> (r: usize)
        ensures
            r == self.spec_bytes().len(),
            1 <= r <= 3,
    {
        match self {
            MidiMessage::NoteOff(..) => 3,
            MidiMessage::NoteOn(..) => 3,
            MidiMessage::PolyphonicKeyPressure(..) => 3,
            MidiMessage::ControlChange(..) => 3,
            MidiMessage::ProgramChange(..) => 2,
            MidiMessage::ChannelPressure(..) => 2,
            MidiMessage::PitchBendChange(..) => 3,
            // This is only true because `MidiMessage` throws away all the data bytes.
            MidiMessage::SysEx => 2,
            MidiMessage::MidiTimeCode(_) => 2,
            MidiMessage::SongPositionPointer(_) => 3,
            MidiMessage::SongSelect(_) => 2,
            MidiMessage::Reserved(_) => 1,
            MidiMessage::TuneRequest => 1,
            MidiMessage::TimingClock => 1,
            MidiMessage::Start => 1,
            MidiMessage::Continue => 1,
            MidiMessage::Stop => 1,
            MidiMessage::ActiveSensing => 1,
            MidiMessage::Reset => 1,
        }
    }

    /// The number of bytes the MIDI message takes when encoded. Same as `bytes_size`.
    pub fn wire_size(&self) -> (r: usize)
        ensures
            r == self.spec_bytes().len(),
    {
        self.bytes_size()
    }

    /// Copies the message as bytes to `slice`. If `slice` does not have enough capacity to fit
    /// the message, then an error is returned and `slice` is left unchanged. On success, the
    /// number of bytes written is returned; it equals `self.bytes_size()`, and the bytes of
    /// `slice` past the message are left unchanged.
    pub fn copy_to_slice(&self, slice: &mut [u8]) -> (r: Result<usize, ToSliceError>)
        ensures
            old(slice)@.len() < self.spec_bytes().len() ==> r == Err::<usize, ToSliceError>(
                ToSliceError::BufferTooSmall,
            ) && final(slice)@ == old(slice)@,
            old(slice)@.len() >= self.spec_bytes().len() ==> r == Ok::<usize, ToSliceError>(
                self.spec_bytes().len() as usize,
            ) && final(slice)@ == self.spec_bytes() + old(slice)@.skip(
                self.spec_bytes().len() as int,
            ),
    {
        let size = self.bytes_size();
        if slice.len() < size {
            return Err(ToSliceError::BufferTooSmall);
        }
        match *self {
            MidiMessage::NoteOff(a, b, c) => {
                slice[0] = 0x80 + a.index();
                slice[1] = b.to_u8();
                slice[2] = c.to_u8();
            },
            MidiMessage::NoteOn(a, b, c) => {
                slice[0] = 0x90 + a.index();
                slice[1] = b.to_u8();
                slice[2] = c.to_u8();
            },
            MidiMessage::PolyphonicKeyPressure(a, b, c) => {
                slice[0] = 0xA0 + a.index();
                slice[1] = b.to_u8();
                slice[2] = c.to_u8();
            },
            MidiMessage::ControlChange(a, b, c) => {
                slice[0] = 0xB0 + a.index();
                slice[1] = b.to_u8();
                slice[2] = c.to_u8();
            },
            MidiMessage::ProgramChange(a, b) => {
                slice[0] = 0xC0 + a.index();
                slice[1] = b.to_u8();
            },
            MidiMessage::ChannelPressure(a, b) => {
                slice[0] = 0xD0 + a.index();
                slice[1] = b.to_u8();
            },
            MidiMessage::PitchBendChange(a, b) => {
                let (b1, b2) = split_data(b);
                slice[0] = 0xE0 + a.index();
                slice[1] = b1;
                slice[2] = b2;
            },
            MidiMessage::SysEx => {
                slice[0] = 0xF0;
                slice[1] = 0xF7;
            },
            MidiMessage::MidiTimeCode(a) => {
                slice[0] = 0xF1;
                slice[1] = a.to_u8();
            },
            MidiMessage::SongPositionPointer(a) => {
                let (a1, a2) = split_data(a);
                slice[0] = 0xF2;
                slice[1] = a1;
                slice[2] = a2;
            },
            MidiMessage::SongSelect(a) => {
                slice[0] = 0xF3;
                slice[1] = a.to_u8();
            },
            MidiMessage::Reserved(a) => {
                slice[0] = a;
            },
            MidiMessage::TuneRequest => {
                slice[0] = 0xF6;
            },
            MidiMessage::TimingClock => {
                slice[0] = 0xF8;
            },
            MidiMessage::Start => {
                slice[0] = 0xFA;
            },
            MidiMessage::Continue => {
                slice[0] = 0xFB;
            },
            MidiMessage::Stop => {
                slice[0] = 0xFC;
            },
            MidiMessage::ActiveSensing => {
                slice[0] = 0xFE;
            },
            MidiMessage::Reset => {
                slice[0] = 0xFF;
            },
        }
        assert(slice@ =~= self.spec_bytes() + old(slice)@.skip(size as int));
        Ok(size)
    }

    /// The channel associated with the MIDI message, if applicable for the message type.
    pub fn channel(&self) -> (r: Option<Channel>)
        ensures
            r == self.spec_channel(),
    {
        match self {
            MidiMessage::NoteOff(c, ..) => Some(*c),
            MidiMessage::NoteOn(c, ..) => Some(*c),
            MidiMessage::PolyphonicKeyPressure(c, ..) => Some(*c),
            MidiMessage::ControlChange(c, ..) => Some(*c),
            MidiMessage::ProgramChange(c, ..) => Some(*c),
            MidiMessage::ChannelPressure(c, ..) => Some(*c),
            MidiMessage::PitchBendChange(c, ..) => Some(*c),
            _ => None,
        }
    }

    /// Convert the message to a vector of bytes. Prefer using `copy_to_slice` if possible for
    /// better performance.
    pub fn to_vec(&self) -> (r: Vec<u8>)
        ensures
            r@ == self.spec_bytes(),
    {
        let mut data = vec![0u8; self.bytes_size()];
        let _ = self.copy_to_slice(data.as_mut_slice());
        assert(data@.skip(self.spec_bytes().len() as int) =~= Seq::<u8>::empty());
        data
    }
}

/// The 14 bit value whose low 7 bits are `lower` and whose high 7 bits are `higher`.
pub fn combine_data(lower: U7, higher: U7) -> (r: U14)
    ensures
        r == spec_combine(lower, higher),
        r.value() == lower.value() + 128 * higher.value(),
{
    let raw: u16 = lower.to_u8() as u16 + 128 * (higher.to_u8() as u16);
    U14::from_unchecked(raw)
}

/// Split a 14 bit value into its low and high 7 bits.
pub fn split_data(data: U14) -> (r: (u8, u8))
    ensures
        r.0 == data.value() % 128,
        r.1 == data.value() / 128,
        r.0 < 128,
        r.1 < 128,
{
    let d = data.to_u16();
    ((d % 128) as u8, (d / 128) as u8)
}

/// True if `b` is a status byte, that is, if its most significant bit is set.
pub fn is_status_byte(b: u8) -> (r: bool)
    ensures
        r == (b >= 0x80),
{
    assert(b & 0x80 == 0x80 <==> b >= 0x80) by (bit_vector);
    b & 0x80 == 0x80
}

/// Decode a data byte; a byte with its most significant bit set is a status byte and is refused.
pub fn valid_data_byte(b: u8) -> (r: Result<U7, FromBytesError>)
    ensures
        b < 128 ==> r == Ok::<U7, FromBytesError>(U7::from_value(b)),
        b >= 128 ==> r == Err::<U7, FromBytesError>(FromBytesError::UnexpectedStatusByte),
{
    match U7::new(b) {
        Ok(v) => Ok(v),
        Err(_) => Err(FromBytesError::UnexpectedStatusByte),
    }
}

/// Decoding the encoding of a message gives the message back. Two kinds of message are left
/// out, as decoding does not give them back: a NoteOn with velocity 0 (it decodes as a NoteOff)
/// and a `Reserved` message whose status byte is not a reserved status.
pub proof fn lemma_from_bytes_of_bytes(m: MidiMessage)
    requires
        m.wf(),
        !(m matches MidiMessage::NoteOn(_, _, v) && v.value() == 0),
        m matches MidiMessage::Reserved(s) ==> is_reserved_status(s),
    ensures
        spec_from_bytes(m.spec_bytes()) == Ok::<MidiMessage, FromBytesError>(m),
{
    match m {
        MidiMessage::NoteOff(c, n, v) => {
            n.lemma_number();
        },
        MidiMessage::NoteOn(c, n, v) => {
            n.lemma_number();
        },
        MidiMessage::PolyphonicKeyPressure(c, n, v) => {
            n.lemma_number();
        },
        MidiMessage::ControlChange(c, f, v) => {
            assert(ControlFunction(U7::from_value(f.0.value())) == f);
        },
        MidiMessage::PitchBendChange(c, b) => {
            assert(spec_combine(
                U7::from_value((b.value() % 128) as u8),
                U7::from_value((b.value() / 128) as u8),
            ) == b);
        },
        MidiMessage::SongPositionPointer(b) => {
            assert(spec_combine(
                U7::from_value((b.value() % 128) as u8),
                U7::from_value((b.value() / 128) as u8),
            ) == b);
        },
        _ => {},
    }
}

/// Encoding a decoded message reproduces the bytes it was decoded from, up to its length. Two
/// kinds of input are left out: a SysEx message (its data bytes are thrown away) and a NoteOn
/// with velocity 0 (it decodes as a NoteOff).
pub proof fn lemma_bytes_of_from_bytes(bytes: Seq<u8>, m: MidiMessage)
    requires
        spec_from_bytes(bytes) == Ok::<MidiMessage, FromBytesError>(m),
        m != MidiMessage::SysEx,
        !(bytes[0] / 16 == 9 && bytes.len() > 2 && bytes[2] == 0),
    ensures
        m.spec_bytes().len() <= bytes.len(),
        m.spec_bytes() == bytes.take(m.spec_bytes().len() as int),
        m.wf(),
{
    let status = bytes[0];
    assert(Channel::spec_from_index(status % 16).spec_index() == status % 16);
    if bytes.len() > 1 && bytes[1] < 128 {
        Note::lemma_from_number(bytes[1]);
    }
    assert(m.spec_bytes() =~= bytes.take(m.spec_bytes().len() as int));
}

/// Decoding gives a message with a channel exactly when the status byte is a channel message
/// (below 0xF0), and the channel is the low nibble of the status byte.
pub proof fn lemma_channel_of_from_bytes(bytes: Seq<u8>, m: MidiMessage)
    requires
        spec_from_bytes(bytes) == Ok::<MidiMessage, FromBytesError>(m),
    ensures
        bytes[0] < 0xF0 ==> m.spec_channel() == Some(Channel::spec_from_index(bytes[0] % 16)),
        bytes[0] >= 0xF0 ==> m.spec_channel() == None::<Channel>,
{
}

/// The sixteen MIDI channels in the order of their numbers: `channels_in_order()[n - 1]` is the
/// channel numbered `n`.
pub open spec fn channels_in_order() -> Seq<Channel> {
    seq![
        Channel::Ch1,
        Channel::Ch2,
        Channel::Ch3,
        Channel::Ch4,
        Channel::Ch5,
        Channel::Ch6,
        Channel::Ch7,
        Channel::Ch8,
        Channel::Ch9,
        Channel::Ch10,
        Channel::Ch11,
        Channel::Ch12,
        Channel::Ch13,
        Channel::Ch14,
        Channel::Ch15,
        Channel::Ch16,
    ]
}

/// Channel indices follow channel order: the channel numbered `n` has index `n - 1`, and index
/// `i` names the channel numbered `i + 1`. So the low nibble of the status byte of a channel
/// message is its channel number minus one, both when encoding and when decoding.
pub proof fn lemma_channel_indices_follow_channel_order()
    ensures
        channels_in_order().len() == 16,
        forall|i: int|
            0 <= i < 16 ==> (#[trigger] channels_in_order()[i]).spec_index() == i
                && Channel::spec_from_index(i as u8) == channels_in_order()[i],
        forall|c: Channel|
            #![trigger c.spec_index()]
            channels_in_order()[c.spec_index() as int] == c,
        forall|c: Channel, n: u8, v: U7|
            #![trigger MidiMessage::NoteOn(c, Note::from_number(n), v).spec_bytes()]
            MidiMessage::NoteOn(c, Note::from_number(n), v).spec_bytes()[0] == 0x90 + c.spec_index(),
{
    let cs = channels_in_order();
    assert(cs[0].spec_index() == 0);
    assert(cs[1].spec_index() == 1);
    assert(cs[2].spec_index() == 2);
    assert(cs[3].spec_index() == 3);
    assert(cs[4].spec_index() == 4);
    assert(cs[5].spec_index() == 5);
    assert(cs[6].spec_index() == 6);
    assert(cs[7].spec_index() == 7);
    assert(cs[8].spec_index() == 8);
    assert(cs[9].spec_index() == 9);
    assert(cs[10].spec_index() == 10);
    assert(cs[11].spec_index() == 11);
    assert(cs[12].spec_index() == 12);
    assert(cs[13].spec_index() == 13);
    assert(cs[14].spec_index() == 14);
    assert(cs[15].spec_index() == 15);
    assert forall|c: Channel| #![trigger c.spec_index()] cs[c.spec_index() as int] == c by {
        match c {
            Channel::Ch1 => assert(cs[0] == c),
            Channel::Ch2 => assert(cs[1] == c),
            Channel::Ch3 => assert(cs[2] == c),
            Channel::Ch4 => assert(cs[3] == c),
            Channel::Ch5 => assert(cs[4] == c),
            Channel::Ch6 => assert(cs[5] == c),
            Channel::Ch7 => assert(cs[6] == c),
            Channel::Ch8 => assert(cs[7] == c),
            Channel::Ch9 => assert(cs[8] == c),
            Channel::Ch10 => assert(cs[9] == c),
            Channel::Ch11 => assert(cs[10] == c),
            Channel::Ch12 => assert(cs[11] == c),
            Channel::Ch13 => assert(cs[12] == c),
            Channel::Ch14 => assert(cs[13] == c),
            Channel::Ch15 => assert(cs[14] == c),
            Channel::Ch16 => assert(cs[15] == c),
        }
    }
}

} // verus!
