use vstd::prelude::*;

verus! {

/// The number of sub beats in one beat.
pub const SUB_BEATS_PER_BEAT: u64 = 0x1_0000_0000;

/// Position contains the position within the transport. This includes a beat and sub_beat
/// component.
#[derive(Copy, Clone, Debug, PartialEq, Eq, Structural)]
pub struct Position {
    /// The beat where the top 32 bits represent the beat and the bottom 32 bits represent the sub
    /// beat.
    beat: u64,
}

impl View for Position {
    type V = u64;

    /// The position counted in sub beats.
    closed spec fn view(&self) -> u64 {
        self.beat
    }
}

impl Position {
    /// The position whose count of sub beats is `v`.
    pub closed spec fn from_view(v: u64) -> Position {
        Position { beat: v }
    }

    pub broadcast proof fn lemma_view_of_from_view(v: u64)
        ensures
            #[trigger] Position::from_view(v)@ == v,
    {
    }

    /// Two positions are equal exactly when they count the same number of sub beats.
    pub broadcast proof fn lemma_view_injective(a: Position, b: Position)
        ensures
            #![trigger a@, b@]
            a@ == b@ <==> a == b,
    {
    }

    /// The beat component.
    pub open spec fn spec_beat(self) -> u32 {
        (self@ / SUB_BEATS_PER_BEAT) as u32
    }

    /// The sub beat component.
    pub open spec fn spec_sub_beat(self) -> u32 {
        (self@ % SUB_BEATS_PER_BEAT) as u32
    }

    /// Create a new `Position` with the given beat and sub beat.
    pub fn with_components(beat: u32, sub_beat: u32) -> (r: Position)
        ensures
            r@ == beat * SUB_BEATS_PER_BEAT + sub_beat,
            r.spec_beat() == beat,
            r.spec_sub_beat() == sub_beat,
    {
        proof {
            crate::bats_dsp::position::lemma_components(beat, sub_beat);
        }
        let b = beat as u64;
        assert(b << 32u64 == b * 0x1_0000_0000u64) by (bit_vector)
            requires
                b < 0x1_0000_0000u64,
        ;
        Position { beat: (b << 32) + sub_beat as u64 }
    }

    /// Get the beat for `self`.
    pub fn beat(&self) -> (r: u32)
        ensures
            r == self.spec_beat(),
    {
        let v = self.beat;
        assert(v >> 32u64 == v / 0x1_0000_0000u64) by (bit_vector);
        (v >> 32) as u32
    }

    /// Get the sub beat for `self`.
    pub fn sub_beat(&self) -> (r: u32)
        ensures
            r == self.spec_sub_beat(),
    {
        let v = self.beat;
        assert(v & 0xFFFF_FFFFu64 == v % 0x1_0000_0000u64) by (bit_vector);
        (v & 0x0000_0000_FFFF_FFFF) as u32
    }

    /// Advance `self` by `rhs`. The sum must stay representable.
    pub fn add_assign(&mut self, rhs: Position)
        requires
            old(self)@ + rhs@ <= u64::MAX,
        ensures
            final(self)@ == old(self)@ + rhs@,
    {
        *self = *self + rhs;
    }
}

impl std::ops::Add for Position {
    type Output = Position;

    fn add(self, rhs: Position) -> (r: Position) {
        Position { beat: self.beat + rhs.beat }
    }
}

impl vstd::std_specs::ops::AddSpecImpl for Position {
    open spec fn obeys_add_spec() -> bool {
        true
    }

    open spec fn add_req(self, rhs: Position) -> bool {
        self@ + rhs@ <= u64::MAX
    }

    open spec fn add_spec(self, rhs: Position) -> Position {
        Position::from_view((self@ + rhs@) as u64)
    }
}

impl Default for Position {
    fn default() -> (r: Position)
        ensures
            r@ == 0,
    {
        Position { beat: 0 }
    }
}

pub broadcast group group_position_lemmas {
    Position::lemma_view_of_from_view,
    Position::lemma_view_injective,
}

} // verus!
