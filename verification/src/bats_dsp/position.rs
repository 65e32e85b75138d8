use vstd::prelude::*;
use vstd::std_specs::cmp::PartialOrdSpec;
use vstd::std_specs::cmp::PartialOrdSpecImpl;
use vstd::string::StringExecFns;

use core::cmp::Ordering;

verus! {

/// The number of sub beats in one beat.
pub const SUB_BEATS_PER_BEAT: u64 = 0x1_0000_0000;

/// Position contains the position within the transport. This includes a beat and sub_beat
/// component.
#[derive(Copy, Clone, Debug, PartialEq, Eq, Ord, Hash, Structural)]
pub struct Position {
    /// The beat where the top 32 bits represent the beat and the bottom 32 bits represent the sub
    /// beat.
    beat: u64,
}

impl View for Position {
    type V = u64;

    /// The position counted in sub beats.
    closed spec fn view(&self) -> u64 {
        self.beat
    }
}

/// The beat component of a position counted in sub beats.
pub open spec fn beat_of(v: u64) -> u32 {
    (v / SUB_BEATS_PER_BEAT) as u32
}

/// The sub beat component of a position counted in sub beats.
pub open spec fn sub_beat_of(v: u64) -> u32 {
    (v % SUB_BEATS_PER_BEAT) as u32
}

/// The count of sub beats for the given components.
pub open spec fn components_value(beat: u32, sub_beat: u32) -> u64 {
    (beat * SUB_BEATS_PER_BEAT + sub_beat) as u64
}

impl Position {
    /// The position whose count of sub beats is `v`.
    pub closed spec fn from_view(v: u64) -> Position {
        Position { beat: v }
    }

    pub broadcast proof fn lemma_view_of_from_view(v: u64)
        ensures
            #[trigger] Position::from_view(v)@ == v,
    {
    }

    /// Two positions are equal exactly when they count the same number of sub beats.
    pub broadcast proof fn lemma_view_injective(a: Position, b: Position)
        ensures
            #![trigger a@, b@]
            a@ == b@ <==> a == b,
    {
    }

    /// The beat component.
    pub open spec fn spec_beat(self) -> u32 {
        beat_of(self@)
    }

    /// The sub beat component.
    pub open spec fn spec_sub_beat(self) -> u32 {
        sub_beat_of(self@)
    }

    /// The minimum position.
    pub fn min_value() -> (r: Position)
        ensures
            r@ == 0,
    {
        Position { beat: 0 }
    }

    /// The maximum representable position.
    pub fn max_value() -> (r: Position)
        ensures
            r@ == u64::MAX,
    {
        Position { beat: u64::MAX }
    }

    /// The minimum (non-zero) representable position.
    pub fn delta() -> (r: Position)
        ensures
            r@ == 1,
    {
        Position { beat: 1 }
    }

    /// Create a new `Position` with the given beat and sub beat.
    pub fn with_components(beat: u32, sub_beat: u32) -> (r: Position)
        ensures
            r@ == components_value(beat, sub_beat),
            r.spec_beat() == beat,
            r.spec_sub_beat() == sub_beat,
    {
        proof {
            lemma_components(beat, sub_beat);
        }
        let b = beat as u64;
        assert(b << 32u64 == b * 0x1_0000_0000u64) by (bit_vector)
            requires
                b < 0x1_0000_0000u64,
        ;
        let higher = b << 32;
        let lower = sub_beat as u64;
        Position { beat: higher + lower }
    }

    /// Get the beat for `self`.
    pub fn beat(&self) -> (r: u32)
        ensures
            r == self.spec_beat(),
    {
        let v = self.beat;
        assert(v >> 32u64 == v / 0x1_0000_0000u64) by (bit_vector);
        (v >> 32) as u32
    }

    /// Get the sub beat for `self`.
    pub fn sub_beat(&self) -> (r: u32)
        ensures
            r == self.spec_sub_beat(),
    {
        let v = self.beat;
        assert(v & 0xFFFF_FFFFu64 == v % 0x1_0000_0000u64) by (bit_vector);
        (v & 0x0000_0000_FFFF_FFFF) as u32
    }

    /// Set the beat component for `self`, keeping the sub beat.
    pub fn set_beat(&mut self, beat: u32)
        ensures
            final(self).spec_beat() == beat,
            final(self).spec_sub_beat() == old(self).spec_sub_beat(),
            final(self)@ == components_value(beat, old(self).spec_sub_beat()),
    {
        *self = Position::with_components(beat, self.sub_beat())
    }

    /// The position `self + rhs`, wrapping around on overflow.
    pub open spec fn spec_add(self, rhs: Position) -> Position {
        Position::from_view(((self@ + rhs@) % 0x1_0000_0000_0000_0000) as u64)
    }

    /// Advance `self` by `rhs`, wrapping around on overflow.
    pub fn add_assign(&mut self, rhs: Position)
        ensures
            *final(self) == old(self).spec_add(rhs),
    {
        *self = *self + rhs;
    }
}

/// The count of sub beats of the components splits back into the same components.
pub proof fn lemma_components(beat: u32, sub_beat: u32)
    ensures
        beat * SUB_BEATS_PER_BEAT + sub_beat <= u64::MAX,
        beat_of(components_value(beat, sub_beat)) == beat,
        sub_beat_of(components_value(beat, sub_beat)) == sub_beat,
{
    let v = beat * SUB_BEATS_PER_BEAT + sub_beat;
    assert(beat * SUB_BEATS_PER_BEAT <= (u32::MAX as int) * 0x1_0000_0000) by (nonlinear_arith);
    vstd::arithmetic::div_mod::lemma_fundamental_div_mod_converse(
        v,
        SUB_BEATS_PER_BEAT as int,
        beat as int,
        sub_beat as int,
    );
}

impl std::ops::Add for Position {
    type Output = Position;

    fn add(self, rhs: Position) -> (r: Position) {
        Position { beat: self.beat.wrapping_add(rhs.beat) }
    }
}

impl vstd::std_specs::ops::AddSpecImpl for Position {
    open spec fn obeys_add_spec() -> bool {
        true
    }

    open spec fn add_req(self, rhs: Position) -> bool {
        true
    }

    open spec fn add_spec(self, rhs: Position) -> Position {
        self.spec_add(rhs)
    }
}

impl PartialOrd for Position {
    /// Positions are ordered by their count of sub beats, that is, by beat and then by sub beat.
    fn partial_cmp(&self, other: &Position) -> (r: Option<Ordering>) {
        if self.beat < other.beat {
            Some(Ordering::Less)
        } else if self.beat == other.beat {
            Some(Ordering::Equal)
        } else {
            Some(Ordering::Greater)
        }
    }
}

impl PartialOrdSpecImpl for Position {
    open spec fn obeys_partial_cmp_spec() -> bool {
        true
    }

    open spec fn partial_cmp_spec(&self, other: &Position) -> Option<Ordering> {
        if self@ < other@ {
            Some(Ordering::Less)
        } else if self@ == other@ {
            Some(Ordering::Equal)
        } else {
            Some(Ordering::Greater)
        }
    }
}

/// Counts of sub beats are ordered by beat, and by sub beat within a beat.
pub proof fn lemma_count_order_by_components(p: Position, q: Position)
    ensures
        p@ < q@ <==> (p.spec_beat() < q.spec_beat() || (p.spec_beat() == q.spec_beat()
            && p.spec_sub_beat() < q.spec_sub_beat())),
{
    lemma_position_from_components(p);
    lemma_position_from_components(q);
    let m = SUB_BEATS_PER_BEAT as int;
    let pb = p.spec_beat() as int;
    let qb = q.spec_beat() as int;
    let ps = p.spec_sub_beat() as int;
    let qs = q.spec_sub_beat() as int;
    if pb < qb {
        assert(pb * m + ps < qb * m + qs) by (nonlinear_arith)
            requires
                pb + 1 <= qb,
                0 <= ps < m,
                0 <= qs,
                m > 0,
        ;
    } else if pb > qb {
        assert(qb * m + qs < pb * m + ps) by (nonlinear_arith)
            requires
                qb + 1 <= pb,
                0 <= qs < m,
                0 <= ps,
                m > 0,
        ;
    }
}

/// Positions are ordered by beat, and by sub beat within a beat; two positions compare equal
/// exactly when they are the same.
pub proof fn lemma_order_by_components(p: Position, q: Position)
    ensures
        (PartialOrdSpec::partial_cmp_spec(&p, &q) == Some(Ordering::Less)) <==> (p.spec_beat() < q.spec_beat() || (
        p.spec_beat() == q.spec_beat() && p.spec_sub_beat() < q.spec_sub_beat())),
        (PartialOrdSpec::partial_cmp_spec(&p, &q) == Some(Ordering::Equal)) <==> p == q,
{
    lemma_count_order_by_components(p, q);
}

impl Default for Position {
    fn default() -> (r: Position)
        ensures
            r@ == 0,
    {
        Position { beat: 0 }
    }
}

/// A position is made of its components.
pub proof fn lemma_position_from_components(p: Position)
    ensures
        p@ == components_value(p.spec_beat(), p.spec_sub_beat()),
{
    let v = p@ as int;
    vstd::arithmetic::div_mod::lemma_fundamental_div_mod(v, SUB_BEATS_PER_BEAT as int);
}

/// Adding positions adds their components, carrying a whole beat when the sub beats overflow,
/// and wraps the beat around after `u32::MAX`.
pub proof fn lemma_add_carries_sub_beat(a: Position, b: Position)
    ensures
        ({
            let sum = a.spec_sub_beat() + b.spec_sub_beat();
            let carry: int = if sum >= SUB_BEATS_PER_BEAT { 1 } else { 0 };
            &&& a.spec_add(b).spec_sub_beat() == sum - carry * SUB_BEATS_PER_BEAT
            &&& a.spec_add(b).spec_beat() == (a.spec_beat() + b.spec_beat() + carry) % 0x1_0000_0000
        }),
{
    lemma_position_from_components(a);
    lemma_position_from_components(b);
    let s = a.spec_add(b);
    lemma_position_from_components(s);
    let ab = a.spec_beat() as int;
    let asb = a.spec_sub_beat() as int;
    let bb = b.spec_beat() as int;
    let bsb = b.spec_sub_beat() as int;
    let m = SUB_BEATS_PER_BEAT as int;
    let total = a@ + b@;
    assert(total == (ab + bb) * m + (asb + bsb)) by (nonlinear_arith)
        requires
            a@ == ab * m + asb,
            b@ == bb * m + bsb,
            total == a@ + b@,
    ;
    let carry: int = if asb + bsb >= m { 1 } else { 0 };
    let beats = ab + bb + carry;
    let subs = asb + bsb - carry * m;
    assert(total == beats * m + subs);
    assert(0 <= subs < m);
    let wrapped = total % (m * m);
    assert(m * m == 0x1_0000_0000_0000_0000);
    assert(s@ == wrapped);
    let q = beats / m;
    let r = beats % m;
    vstd::arithmetic::div_mod::lemma_fundamental_div_mod(beats, m);
    assert(total == q * (m * m) + (r * m + subs)) by (nonlinear_arith)
        requires
            total == beats * m + subs,
            beats == q * m + r,
    ;
    assert(0 <= r * m + subs < m * m) by (nonlinear_arith)
        requires
            0 <= r < m,
            0 <= subs < m,
    ;
    vstd::arithmetic::div_mod::lemma_fundamental_div_mod_converse(total, m * m, q, r * m + subs);
    vstd::arithmetic::div_mod::lemma_fundamental_div_mod_converse(r * m + subs, m, r, subs);
}

pub broadcast group group_position_lemmas {
    Position::lemma_view_of_from_view,
    Position::lemma_view_injective,
}

/// The decimal digit character for `d`.
pub open spec fn digit_char(d: nat) -> char {
    if d == 0 {
        '0'
    } else if d == 1 {
        '1'
    } else if d == 2 {
        '2'
    } else if d == 3 {
        '3'
    } else if d == 4 {
        '4'
    } else if d == 5 {
        '5'
    } else if d == 6 {
        '6'
    } else if d == 7 {
        '7'
    } else if d == 8 {
        '8'
    } else {
        '9'
    }
}

/// The decimal representation of `n`, without leading zeros.
pub open spec fn decimal(n: nat) -> Seq<char>
    decreases n,
{
    if n < 10 {
        seq![digit_char(n)]
    } else {
        decimal(n / 10).push(digit_char(n % 10))
    }
}

/// The first `count` decimal digits of the fraction `sub_beat / 2^32`, stopping early once the
/// rest of the fraction is 0.
pub open spec fn fraction_digits(sub_beat: nat, count: nat) -> Seq<char>
    decreases count,
{
    if count == 0 || sub_beat == 0 {
        Seq::empty()
    } else {
        let scaled = sub_beat * 10;
        seq![digit_char(scaled / SUB_BEATS_PER_BEAT as nat)] + fraction_digits(
            scaled % SUB_BEATS_PER_BEAT as nat,
            (count - 1) as nat,
        )
    }
}

/// The decimals of the sub beat: all of them (a fraction of 2^32 has at most 32), or "0" for a
/// whole beat.
pub open spec fn sub_beat_decimals(sub_beat: nat) -> Seq<char> {
    if sub_beat == 0 {
        seq!['0']
    } else {
        fraction_digits(sub_beat, 32)
    }
}

/// The text that `Position::debug_string` gives for `p`.
pub open spec fn spec_debug_string(p: Position) -> Seq<char> {
    "Position { beat: "@ + decimal(p.spec_beat() as nat) + "."@ + sub_beat_decimals(
        p.spec_sub_beat() as nat,
    ) + " }"@
}

/// The string holding the single digit `d`.
fn digit_str(d: u64) -> (r: &'static str)
    requires
        d < 10,
    ensures
        r@ == seq![digit_char(d as nat)],
{
    proof {
        reveal_strlit("0");
        reveal_strlit("1");
        reveal_strlit("2");
        reveal_strlit("3");
        reveal_strlit("4");
        reveal_strlit("5");
        reveal_strlit("6");
        reveal_strlit("7");
        reveal_strlit("8");
        reveal_strlit("9");
    }
    if d == 0 {
        "0"
    } else if d == 1 {
        "1"
    } else if d == 2 {
        "2"
    } else if d == 3 {
        "3"
    } else if d == 4 {
        "4"
    } else if d == 5 {
        "5"
    } else if d == 6 {
        "6"
    } else if d == 7 {
        "7"
    } else if d == 8 {
        "8"
    } else {
        "9"
    }
}

/// Append the decimal representation of `n` to `s`.
fn push_decimal(s: &mut String, n: u64)
    ensures
        final(s)@ == old(s)@ + decimal(n as nat),
    decreases n,
{
    if n < 10 {
        s.append(digit_str(n));
    } else {
        push_decimal(s, n / 10);
        s.append(digit_str(n % 10));
    }
}

/// Append the decimal digits of the fraction `sub_beat / 2^32` to `s`.
fn push_fraction_digits(s: &mut String, sub_beat: u64, count: u64)
    requires
        sub_beat < SUB_BEATS_PER_BEAT,
    ensures
        final(s)@ == old(s)@ + fraction_digits(sub_beat as nat, count as nat),
    decreases count,
{
    if count == 0 || sub_beat == 0 {
        assert(old(s)@ + fraction_digits(sub_beat as nat, count as nat) =~= old(s)@);
        return;
    }
    let scaled = sub_beat * 10;
    let digit = scaled / SUB_BEATS_PER_BEAT;
    let rest = scaled % SUB_BEATS_PER_BEAT;
    s.append(digit_str(digit));
    push_fraction_digits(s, rest, count - 1);
    assert(s@ =~= old(s)@ + fraction_digits(sub_beat as nat, count as nat));
}

impl Position {
    /// A human readable description of the position, giving the beat as a decimal number: the
    /// beat component, a point and every decimal of the sub beat (a whole beat shows ".0").
    pub fn debug_string(&self) -> (r: String)
        ensures
            r@ == spec_debug_string(*self),
    {
        proof {
            reveal_strlit("Position { beat: ");
            reveal_strlit(".");
            reveal_strlit(" }");
            reveal_strlit("0");
        }
        let mut s = String::new();
        s.append("Position { beat: ");
        push_decimal(&mut s, self.beat() as u64);
        s.append(".");
        let sub = self.sub_beat() as u64;
        if sub == 0 {
            s.append("0");
        } else {
            push_fraction_digits(&mut s, sub, 32);
        }
        s.append(" }");
        assert(s@ =~= spec_debug_string(*self));
        s
    }
}

} // verus!
