pub mod byte;
pub mod cc;
pub mod error;
pub mod midi_message;
pub mod note;

pub use byte::{U14, U7};
pub use cc::ControlFunction;
pub use error::{FromBytesError, ToSliceError};
pub use midi_message::{
    Channel, ControlValue, MidiMessage, PitchBend, ProgramNumber, Song, SongPosition, Velocity,
};
pub use note::Note;
