use vstd::prelude::*;

use super::position::{group_position_lemmas, Position};
use crate::bmidi::Note;

verus! {

broadcast use group_position_lemmas;

/// The metronome note to play when the position moves from `prev` to `next`, if any: a new beat
/// plays C6 when it starts a measure (a beat divisible by 4) and C5 otherwise.
pub open spec fn spec_tick_note(prev: Position, next: Position) -> Option<Note> {
    if prev.spec_beat() != next.spec_beat() {
        if next.spec_beat() % 4 == 0 {
            Some(Note::C6)
        } else {
            Some(Note::C5)
        }
    } else {
        None
    }
}

/// The metronome ticks on every new beat and only there: a beat that starts a measure (a
/// multiple of 4) plays C6, any other beat plays C5.
pub proof fn lemma_tick_note_by_beat(prev: Position, next: Position)
    ensures
        prev.spec_beat() == next.spec_beat() ==> spec_tick_note(prev, next) is None,
        prev.spec_beat() != next.spec_beat() && next.spec_beat() % 4 == 0 ==> spec_tick_note(
            prev,
            next,
        ) == Some(Note::C6),
        prev.spec_beat() != next.spec_beat() && next.spec_beat() % 4 != 0 ==> spec_tick_note(
            prev,
            next,
        ) == Some(Note::C5),
{
}

/// Decide which metronome note, if any, to play when the position moves from `prev` to `next`.
pub fn tick_note(prev: Position, next: Position) -> (r: Option<Note>)
    ensures
        r == spec_tick_note(prev, next),
{
    if prev.beat() != next.beat() {
        if next.beat() % 4 == 0 {
            Some(Note::C6)
        } else {
            Some(Note::C5)
        }
    } else {
        None
    }
}

/// Tracks position, advancing by a fixed amount for each sample.
#[derive(Copy, Clone, Debug, PartialEq, Eq)]
pub struct MetronomeClock {
    /// The current position.
    position: Position,
    /// The amount of advancement per sample.
    position_per_sample: Position,
}

impl MetronomeClock {
    /// The current position.
    pub closed spec fn spec_position(self) -> Position {
        self.position
    }

    /// The advancement per sample.
    pub closed spec fn spec_position_per_sample(self) -> Position {
        self.position_per_sample
    }

    /// A clock at position 0 that advances by `position_per_sample` for each sample.
    pub fn new(position_per_sample: Position) -> (r: MetronomeClock)
        ensures
            r.spec_position()@ == 0,
            r.spec_position_per_sample() == position_per_sample,
    {
        MetronomeClock { position: Position::default(), position_per_sample }
    }

    /// The current position.
    pub fn position(&self) -> (r: Position)
        ensures
            r == self.spec_position(),
    {
        self.position
    }

    /// The advancement per sample.
    pub fn position_per_sample(&self) -> (r: Position)
        ensures
            r == self.spec_position_per_sample(),
    {
        self.position_per_sample
    }

    /// Set the advancement per sample.
    pub fn set_position_per_sample(&mut self, position_per_sample: Position)
        ensures
            final(self).spec_position() == old(self).spec_position(),
            final(self).spec_position_per_sample() == position_per_sample,
    {
        self.position_per_sample = position_per_sample;
    }

    /// Get the next position: the current position is returned and the clock advances by one
    /// sample. The position must not run past the largest representable position.
    pub fn next_position(&mut self) -> (r: Position)
        requires
            old(self).spec_position()@ + old(self).spec_position_per_sample()@ <= u64::MAX,
        ensures
            r == old(self).spec_position(),
            final(self).spec_position()@ == old(self).spec_position()@ + old(
                self,
            ).spec_position_per_sample()@,
            final(self).spec_position_per_sample() == old(self).spec_position_per_sample(),
    {
        let ret = self.position;
        self.position.add_assign(self.position_per_sample);
        ret
    }
}

} // verus!
