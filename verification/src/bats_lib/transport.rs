use vstd::prelude::*;

use crate::bats_dsp::position::{components_value, group_position_lemmas, Position};
use crate::bmidi::Note;

verus! {

broadcast use group_position_lemmas;

/// The number of beats after which the transport loops back to beat 0.
pub const LOOP_BEATS: u32 = 16;

/// `p` with its beat wrapped into the loop of `LOOP_BEATS` beats.
pub open spec fn wrap_beat(p: Position) -> Position {
    if p.spec_beat() >= LOOP_BEATS {
        Position::from_view(components_value(p.spec_beat() % LOOP_BEATS, p.spec_sub_beat()))
    } else {
        p
    }
}

/// The position one sample after `p` when each sample advances the transport by `delta`.
pub open spec fn step(p: Position, delta: Position) -> Position {
    wrap_beat(p.spec_add(delta))
}

/// The position `n` samples after `p`.
pub open spec fn advance(p: Position, delta: Position, n: nat) -> Position
    decreases n,
{
    if n == 0 {
        p
    } else {
        step(advance(p, delta, (n - 1) as nat), delta)
    }
}

/// The metronome note to play when the transport moves from `prev` to `next`, if any: a note is
/// played when a new beat starts and at the very start; the loop start (beat 0) plays G5, the
/// start of a measure (a beat divisible by 4) plays C5 and any other beat plays C4.
pub open spec fn spec_metronome_note(prev: Position, next: Position) -> Option<Note> {
    if prev.spec_beat() != next.spec_beat() || prev@ == 0 {
        if next.spec_beat() == 0 {
            Some(Note::G5)
        } else if next.spec_beat() % 4 == 0 {
            Some(Note::C5)
        } else {
            Some(Note::C4)
        }
    } else {
        None
    }
}

/// The metronome plays on every new beat, and at the very start: beat 0 (the loop start) plays
/// G5, every other beat that starts a measure (a multiple of 4) plays C5, and any other beat
/// plays C4. Within a beat nothing plays.
pub proof fn lemma_metronome_note_by_beat(prev: Position, next: Position)
    ensures
        prev.spec_beat() == next.spec_beat() && prev@ != 0 ==> spec_metronome_note(prev, next)
            is None,
        prev.spec_beat() != next.spec_beat() || prev@ == 0 ==> {
            &&& next.spec_beat() == 0 ==> spec_metronome_note(prev, next) == Some(Note::G5)
            &&& next.spec_beat() != 0 && next.spec_beat() % 4 == 0 ==> spec_metronome_note(prev, next)
                == Some(Note::C5)
            &&& next.spec_beat() % 4 != 0 ==> spec_metronome_note(prev, next) == Some(Note::C4)
        },
{
}

/// Decide which metronome note, if any, to play when the transport moves from `prev` to `next`.
pub fn metronome_note(prev: Position, next: Position) -> (r: Option<Note>)
    ensures
        r == spec_metronome_note(prev, next),
{
    if prev.beat() != next.beat() || prev == Position::min_value() {
        let b = next.beat();
        if b == 0 {
            Some(Note::G5)
        } else if b % 4 == 0 {
            Some(Note::C5)
        } else {
            Some(Note::C4)
        }
    } else {
        None
    }
}

/// Tracks the position of the transport. For each processed buffer it holds the position at
/// the start of every frame and the position after the last frame. The transport loops over
/// `LOOP_BEATS` beats.
#[derive(Debug, PartialEq, Eq)]
pub struct TransportClock {
    /// The positions for each frame, and the position after the last frame.
    transport: Vec<Position>,
    /// The current position of the transport.
    position: Position,
    /// The amount of advancement the transport undergoes per frame.
    position_per_sample: Position,
}

impl TransportClock {
    #[verifier::type_invariant]
    spec fn inv(self) -> bool {
        &&& self.position.spec_beat() < LOOP_BEATS
        &&& self.transport@.len() > 0 ==> self.transport@.last() == self.position
        &&& forall|i: int|
            0 <= i < self.transport@.len() ==> #[trigger] self.transport@[i].spec_beat() < LOOP_BEATS
    }

    /// The positions of the last processed buffer.
    pub closed spec fn positions(self) -> Seq<Position> {
        self.transport@
    }

    /// The current position.
    pub closed spec fn spec_position(self) -> Position {
        self.position
    }

    /// The advancement per frame.
    pub closed spec fn spec_position_per_sample(self) -> Position {
        self.position_per_sample
    }

    /// Create a new clock at position 0 that advances by `position_per_sample` each frame and has
    /// room for a buffer of `buffer_size` frames.
    pub fn new(buffer_size: usize, position_per_sample: Position) -> (r: TransportClock)
        requires
            buffer_size < usize::MAX,
        ensures
            r.positions() == Seq::<Position>::empty(),
            r.spec_position()@ == 0,
            r.spec_position_per_sample() == position_per_sample,
    {
        TransportClock {
            transport: Vec::with_capacity(buffer_size + 1),
            position: Position::min_value(),
            position_per_sample,
        }
    }

    /// Create a new clock and populate the positions of a buffer of `buffer_size` frames.
    pub fn new_prepopulated(buffer_size: usize, position_per_sample: Position) -> (r: TransportClock)
        requires
            buffer_size < usize::MAX,
        ensures
            r.positions().len() == buffer_size + 1,
            forall|i: int|
                0 <= i <= buffer_size ==> #[trigger] r.positions()[i] == advance(
                    Position::from_view(0),
                    position_per_sample,
                    i as nat,
                ),
            r.spec_position() == advance(Position::from_view(0), position_per_sample, buffer_size as nat),
            r.spec_position_per_sample() == position_per_sample,
    {
        let mut t = TransportClock::new(buffer_size, position_per_sample);
        proof {
            Position::lemma_view_injective(t.spec_position(), Position::from_view(0));
        }
        t.populate_transport(buffer_size);
        t
    }

    /// The current position.
    pub fn position(&self) -> (r: Position)
        ensures
            r == self.spec_position(),
            r.spec_beat() < LOOP_BEATS,
    {
        proof {
            use_type_invariant(self);
        }
        self.position
    }

    /// The positions of the last processed buffer: the position at the start of each frame
    /// followed by the position after the last frame.
    pub fn transport(&self) -> (r: &Vec<Position>)
        ensures
            r@ == self.positions(),
    {
        &self.transport
    }

    /// The advancement per frame.
    pub fn position_per_sample(&self) -> (r: Position)
        ensures
            r == self.spec_position_per_sample(),
    {
        self.position_per_sample
    }

    /// Set the advancement per frame.
    pub fn set_position_per_sample(&mut self, position_per_sample: Position)
        ensures
            final(self).spec_position_per_sample() == position_per_sample,
            final(self).spec_position() == old(self).spec_position(),
            final(self).positions() == old(self).positions(),
    {
        proof {
            use_type_invariant(&*self);
        }
        self.position_per_sample = position_per_sample;
    }

    /// Fill the positions with `samples + 1` values: the current position, followed by the
    /// position after each frame. The last value becomes the current position, so the first
    /// value is always the last value of the previous buffer.
    pub fn populate_transport(&mut self, samples: usize)
        requires
            samples < usize::MAX,
        ensures
            old(self).positions().len() > 0 ==> final(self).positions()[0] == old(self).positions().last(),
            final(self).positions().len() == samples + 1,
            forall|i: int|
                0 <= i <= samples ==> #[trigger] final(self).positions()[i] == advance(
                    old(self).spec_position(),
                    old(self).spec_position_per_sample(),
                    i as nat,
                ),
            final(self).spec_position() == advance(
                old(self).spec_position(),
                old(self).spec_position_per_sample(),
                samples as nat,
            ),
            final(self).spec_position_per_sample() == old(self).spec_position_per_sample(),
    {
        proof {
            use_type_invariant(&*self);
        }
        let delta = self.position_per_sample;
        let start = self.position;
        let mut transport: Vec<Position> = Vec::new();
        std::mem::swap(&mut transport, &mut self.transport);
        transport.clear();
        let mut position = start;
        let mut i: usize = 0;
        while i < samples
            invariant
                i <= samples,
                transport@.len() == i,
                position == advance(start, delta, i as nat),
                position.spec_beat() < LOOP_BEATS,
                forall|j: int| 0 <= j < i ==> #[trigger] transport@[j] == advance(start, delta, j as nat),
                forall|j: int| 0 <= j < i ==> #[trigger] transport@[j].spec_beat() < LOOP_BEATS,
            decreases samples - i,
        {
            let ret = position;
            let ghost prev = position;
            position = position + delta;
            assert(position == prev.spec_add(delta));
            if position.beat() >= LOOP_BEATS {
                let beat = position.beat() % LOOP_BEATS;
                position.set_beat(beat);
                assert(position@ == Position::from_view(
                    components_value(beat, prev.spec_add(delta).spec_sub_beat()),
                )@);
            }
            proof {
                lemma_step_stays_in_loop(prev, delta);
                assert(position == step(prev, delta));
            }
            transport.push(ret);
            i = i + 1;
        }
        transport.push(position);
        self.position = position;
        std::mem::swap(&mut transport, &mut self.transport);
    }

    /// All the ranges of positions covered by each frame: from the position at the start of the
    /// frame to the position at the start of the next one.
    pub fn iter_transport(&self) -> (r: Vec<(Position, Position)>)
        ensures
            self.positions().len() == 0 ==> r@.len() == 0,
            self.positions().len() > 0 ==> r@.len() == self.positions().len() - 1,
            forall|i: int|
                0 <= i < r@.len() ==> #[trigger] r@[i] == (self.positions()[i], self.positions()[i + 1]),
    {
        let mut out: Vec<(Position, Position)> = Vec::new();
        let n = self.transport.len();
        if n == 0 {
            return out;
        }
        let mut i: usize = 0;
        while i + 1 < n
            invariant
                n == self.transport@.len(),
                i + 1 <= n,
                out@.len() == i,
                forall|j: int|
                    0 <= j < i ==> #[trigger] out@[j] == (self.transport@[j], self.transport@[j + 1]),
            decreases n - i,
        {
            out.push((self.transport[i], self.transport[i + 1]));
            i = i + 1;
        }
        out
    }

    /// Get the range of positions covered by the given frame.
    pub fn range_for_frame(&self, frame: u32) -> (r: (Position, Position))
        requires
            frame + 1 < self.positions().len(),
        ensures
            r == (self.positions()[frame as int], self.positions()[frame + 1]),
    {
        let f = frame as usize;
        let n = self.transport.len();
        assert(f + 1 < n);
        (self.transport[f], self.transport[f + 1])
    }

    /// The metronome note to play at each frame of the last processed buffer, if any.
    pub fn metronome_notes(&self) -> (r: Vec<Option<Note>>)
        ensures
            self.positions().len() == 0 ==> r@.len() == 0,
            self.positions().len() > 0 ==> r@.len() == self.positions().len() - 1,
            forall|i: int|
                0 <= i < r@.len() ==> #[trigger] r@[i] == spec_metronome_note(
                    self.positions()[i],
                    self.positions()[i + 1],
                ),
    {
        let mut out: Vec<Option<Note>> = Vec::new();
        let n = self.transport.len();
        if n == 0 {
            return out;
        }
        let mut i: usize = 0;
        while i + 1 < n
            invariant
                n == self.transport@.len(),
                i + 1 <= n,
                out@.len() == i,
                forall|j: int|
                    0 <= j < i ==> #[trigger] out@[j] == spec_metronome_note(
                        self.transport@[j],
                        self.transport@[j + 1],
                    ),
            decreases n - i,
        {
            out.push(metronome_note(self.transport[i], self.transport[i + 1]));
            i = i + 1;
        }
        out
    }
}

/// Processing `n` samples and then `m` samples leaves the transport where processing `n + m`
/// samples at once does: splitting a stream into buffers does not change the positions.
pub proof fn lemma_advance_adds(p: Position, delta: Position, n: nat, m: nat)
    ensures
        advance(advance(p, delta, n), delta, m) == advance(p, delta, n + m),
    decreases m,
{
    if m > 0 {
        lemma_advance_adds(p, delta, n, (m - 1) as nat);
        assert((n + m - 1) as nat == n + (m - 1) as nat);
    }
}

/// The transport loops after 16 beats, and only there: a step that ends before beat 16 moves the
/// position by exactly `delta`, and a step that ends at or past beat 16 keeps the sub beat and
/// takes the beat modulo 16.
pub proof fn lemma_step_wraps_only_at_loop_end(p: Position, delta: Position)
    ensures
        LOOP_BEATS == 16,
        p.spec_add(delta).spec_beat() < 16 ==> step(p, delta) == p.spec_add(delta),
        p.spec_add(delta).spec_beat() >= 16 ==> {
            &&& step(p, delta).spec_beat() == p.spec_add(delta).spec_beat() % 16
            &&& step(p, delta).spec_sub_beat() == p.spec_add(delta).spec_sub_beat()
        },
{
    let q = p.spec_add(delta);
    if q.spec_beat() >= 16 {
        crate::bats_dsp::position::lemma_components(q.spec_beat() % 16, q.spec_sub_beat());
    }
}

/// Each frame of a populated buffer is one step after the previous one: the next position is
/// the previous one plus the advancement per frame, looped after 16 beats.
pub proof fn lemma_frames_follow_each_other(p: Position, delta: Position, n: nat)
    ensures
        advance(p, delta, n + 1) == step(advance(p, delta, n), delta),
        advance(p, delta, 0) == p,
{
}

/// Every position of the transport stays within the loop of `LOOP_BEATS` beats.
pub proof fn lemma_step_stays_in_loop(p: Position, delta: Position)
    ensures
        step(p, delta).spec_beat() < LOOP_BEATS,
        step(p, delta).spec_sub_beat() == p.spec_add(delta).spec_sub_beat(),
{
    let q = p.spec_add(delta);
    if q.spec_beat() >= LOOP_BEATS {
        crate::bats_dsp::position::lemma_components(q.spec_beat() % LOOP_BEATS, q.spec_sub_beat());
    }
}

} // verus!
