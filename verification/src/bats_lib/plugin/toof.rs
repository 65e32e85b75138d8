use vstd::prelude::*;

use arrayvec::ArrayVec;

use crate::bmidi::{MidiMessage, Note};

verus! {

/// The most voices that play at once.
pub const MAX_VOICES: usize = 16;

#[verifier::external_type_specification]
#[verifier::external_body]
#[verifier::reject_recursive_types(T)]
pub struct ExArrayVec<T, const CAP: usize>(ArrayVec<T, CAP>);

/// The notes held by a voice list, oldest first.
pub uninterp spec fn voice_notes(v: ArrayVec<u8, 16>) -> Seq<u8>;

/// Calls `ArrayVec::new`: an empty list.
#[verifier::external_body]
fn notes_new() -> (r: ArrayVec<u8, 16>)
    ensures
        voice_notes(r) == Seq::<u8>::empty(),
{
    ArrayVec::new()
}

/// Calls `ArrayVec::len`: the number of items, at most the capacity.
#[verifier::external_body]
fn notes_len(v: &ArrayVec<u8, 16>) -> (r: usize)
    ensures
        r == voice_notes(*v).len(),
        r <= 16,
{
    v.len()
}

/// Calls `ArrayVec::is_empty`: true when there are no items.
#[verifier::external_body]
fn notes_is_empty(v: &ArrayVec<u8, 16>) -> (r: bool)
    ensures
        r == (voice_notes(*v).len() == 0),
{
    v.is_empty()
}

/// Calls `ArrayVec::is_full`: true when the number of items is the capacity.
#[verifier::external_body]
fn notes_is_full(v: &ArrayVec<u8, 16>) -> (r: bool)
    ensures
        r == (voice_notes(*v).len() == 16),
{
    v.is_full()
}

/// Reads item `i` through `ArrayVec::as_slice`.
#[verifier::external_body]
fn notes_get(v: &ArrayVec<u8, 16>, i: usize) -> (r: u8)
    requires
        i < voice_notes(*v).len(),
    ensures
        r == voice_notes(*v)[i as int],
{
    v.as_slice()[i]
}

/// Writes item `i` through `ArrayVec::as_mut_slice`.
#[verifier::external_body]
fn notes_set(v: &mut ArrayVec<u8, 16>, i: usize, x: u8)
    requires
        i < voice_notes(*old(v)).len(),
    ensures
        voice_notes(*final(v)) == voice_notes(*old(v)).update(i as int, x),
    no_unwind
{
    v.as_mut_slice()[i] = x;
}

/// Calls `ArrayVec::push`, which appends `x`; the list must not be full.
#[verifier::external_body]
fn notes_push(v: &mut ArrayVec<u8, 16>, x: u8)
    requires
        voice_notes(*old(v)).len() < 16,
    ensures
        voice_notes(*final(v)) == voice_notes(*old(v)).push(x),
    no_unwind
{
    v.push(x)
}

/// Calls `ArrayVec::remove`, which removes item `i` and shifts down the following items.
#[verifier::external_body]
fn notes_remove(v: &mut ArrayVec<u8, 16>, i: usize) -> (r: u8)
    requires
        i < voice_notes(*old(v)).len(),
    ensures
        r == voice_notes(*old(v))[i as int],
        voice_notes(*final(v)) == voice_notes(*old(v)).remove(i as int),
    no_unwind
{
    v.remove(i)
}

/// Calls `ArrayVec::clone`, which copies every item.
#[verifier::external_body]
fn notes_clone(v: &ArrayVec<u8, 16>) -> (r: ArrayVec<u8, 16>)
    ensures
        voice_notes(r) == voice_notes(*v),
{
    v.clone()
}

/// Calls `ArrayVec::clear`, which removes all items.
#[verifier::external_body]
fn notes_clear(v: &mut ArrayVec<u8, 16>)
    ensures
        voice_notes(*final(v)) == Seq::<u8>::empty(),
    no_unwind
{
    v.clear()
}

/// What the synthesizer has to do with its voices after a midi message. The voices are kept in
/// a list, oldest first; the indices are positions in that list before the action.
#[derive(Clone, Debug, PartialEq, Eq)]
pub enum VoiceAction {
    /// Nothing changes.
    Nothing,
    /// Release the envelopes of the voices at these indices.
    Release(Vec<usize>),
    /// Start a new voice playing `note` at the end of the list, after removing the oldest voice
    /// if `drop_oldest`.
    Start { drop_oldest: bool, note: Note },
    /// Restart the first voice with `note`.
    Retune(Note),
    /// Remove all voices.
    Clear,
}

/// The indices of `notes` that hold `note`, in increasing order.
pub open spec fn indices_of(notes: Seq<u8>, note: u8) -> Seq<usize>
    decreases notes.len(),
{
    if notes.len() == 0 {
        Seq::empty()
    } else if notes.last() == note {
        indices_of(notes.drop_last(), note).push((notes.len() - 1) as usize)
    } else {
        indices_of(notes.drop_last(), note)
    }
}

/// `notes` without the items whose `keep` flag is false, in the same order.
pub open spec fn retained(notes: Seq<u8>, keep: Seq<bool>) -> Seq<u8>
    decreases notes.len(),
{
    if notes.len() == 0 {
        Seq::empty()
    } else if keep[notes.len() - 1] {
        retained(notes.drop_last(), keep).push(notes.last())
    } else {
        retained(notes.drop_last(), keep)
    }
}

/// Decides which voices of the toof synthesizer play which notes. Each voice plays one note; the
/// voices are kept in the order they started.
#[derive(Debug, PartialEq, Eq)]
pub struct VoiceAllocator {
    /// The note of each voice, oldest first.
    notes: ArrayVec<u8, 16>,
    /// True if more than one voice may play at once.
    is_polyphonic: bool,
}

impl VoiceAllocator {
    #[verifier::type_invariant]
    spec fn inv(self) -> bool {
        &&& voice_notes(self.notes).len() <= MAX_VOICES
        &&& forall|i: int| 0 <= i < voice_notes(self.notes).len() ==> #[trigger] voice_notes(self.notes)[i] < 128
    }

    /// The note of each voice, oldest first.
    pub closed spec fn notes(self) -> Seq<u8> {
        voice_notes(self.notes)
    }

    /// True if more than one voice may play at once.
    pub closed spec fn polyphonic(self) -> bool {
        self.is_polyphonic
    }

    /// A monophonic allocator with no voices.
    pub fn new() -> (r: VoiceAllocator)
        ensures
            r.notes() == Seq::<u8>::empty(),
            !r.polyphonic(),
    {
        VoiceAllocator { notes: notes_new(), is_polyphonic: false }
    }

    /// True if more than one voice may play at once.
    pub fn is_polyphonic(&self) -> (r: bool)
        ensures
            r == self.polyphonic(),
    {
        self.is_polyphonic
    }

    /// Set if more than one voice may play at once. The voices are kept.
    pub fn set_polyphonic(&mut self, is_polyphonic: bool)
        ensures
            final(self).polyphonic() == is_polyphonic,
            final(self).notes() == old(self).notes(),
    {
        proof {
            use_type_invariant(&*self);
        }
        self.is_polyphonic = is_polyphonic;
    }

    /// The number of voices.
    pub fn len(&self) -> (r: usize)
        ensures
            r == self.notes().len(),
            r <= MAX_VOICES,
    {
        notes_len(&self.notes)
    }

    /// The note of the voice at `i`.
    pub fn note(&self, i: usize) -> (r: Note)
        requires
            i < self.notes().len(),
        ensures
            r.number() == self.notes()[i as int],
    {
        proof {
            use_type_invariant(self);
        }
        let n = notes_get(&self.notes, i);
        let data = crate::bmidi::U7::from_u8_lossy(n);
        Note::from_u7(data)
    }

    /// The indices of the voices that play `note`.
    fn voices_playing(&self, note: u8) -> (r: Vec<usize>)
        ensures
            r@ == indices_of(self.notes(), note),
    {
        let n = notes_len(&self.notes);
        let mut out: Vec<usize> = Vec::new();
        let mut i: usize = 0;
        while i < n
            invariant
                n == voice_notes(self.notes).len(),
                i <= n,
                out@ == indices_of(voice_notes(self.notes).take(i as int), note),
            decreases n - i,
        {
            let ghost before = voice_notes(self.notes).take(i as int);
            assert(voice_notes(self.notes).take(i + 1).drop_last() =~= before);
            if notes_get(&self.notes, i) == note {
                out.push(i);
            }
            i = i + 1;
        }
        assert(voice_notes(self.notes).take(n as int) =~= voice_notes(self.notes));
        out
    }

    /// Handle a midi message. A NoteOff, or a NoteOn with velocity 0, releases every voice that
    /// plays its note. A NoteOn starts a new voice when polyphonic or when there is no voice,
    /// dropping the oldest voice if all voices are in use; otherwise it retunes the first voice.
    /// A Reset removes all voices. Any other message changes nothing.
    pub fn handle_midi(&mut self, msg: &MidiMessage) -> (r: VoiceAction)
        ensures
            final(self).polyphonic() == old(self).polyphonic(),
            match *msg {
                MidiMessage::NoteOff(_, n, _) => r matches VoiceAction::Release(ids) && ids@
                    == indices_of(old(self).notes(), n.number()) && final(self).notes() == old(
                    self,
                ).notes(),
                MidiMessage::NoteOn(_, n, v) => if v.value() == 0 {
                    r matches VoiceAction::Release(ids) && ids@ == indices_of(
                        old(self).notes(),
                        n.number(),
                    ) && final(self).notes() == old(self).notes()
                } else if old(self).polyphonic() || old(self).notes().len() == 0 {
                    let drop_oldest = old(self).notes().len() == MAX_VOICES;
                    let kept = if drop_oldest {
                        old(self).notes().remove(0)
                    } else {
                        old(self).notes()
                    };
                    &&& r == VoiceAction::Start { drop_oldest, note: n }
                    &&& final(self).notes() == kept.push(n.number())
                } else {
                    &&& r == VoiceAction::Retune(n)
                    &&& final(self).notes() == old(self).notes().update(0, n.number())
                },
                MidiMessage::Reset => r == VoiceAction::Clear && final(self).notes() == Seq::<
                    u8,
                >::empty(),
                _ => r == VoiceAction::Nothing && final(self).notes() == old(self).notes(),
            },
    {
        proof {
            use_type_invariant(&*self);
        }
        match *msg {
            MidiMessage::NoteOff(_, note, _) => VoiceAction::Release(self.voices_playing(note.to_u8())),
            MidiMessage::NoteOn(_, note, velocity) => {
                if velocity.to_u8() == 0 {
                    VoiceAction::Release(self.voices_playing(note.to_u8()))
                } else if self.is_polyphonic || notes_is_empty(&self.notes) {
                    let drop_oldest = notes_is_full(&self.notes);
                    if drop_oldest {
                        notes_remove(&mut self.notes, 0);
                    }
                    notes_push(&mut self.notes, note.to_u8());
                    VoiceAction::Start { drop_oldest, note }
                } else {
                    notes_set(&mut self.notes, 0, note.to_u8());
                    VoiceAction::Retune(note)
                }
            },
            MidiMessage::Reset => {
                notes_clear(&mut self.notes);
                VoiceAction::Clear
            },
            _ => VoiceAction::Nothing,
        }
    }

    /// Keep only the voices whose `active` flag is true, in the same order.
    pub fn retain_active(&mut self, active: &Vec<bool>)
        requires
            active@.len() == old(self).notes().len(),
        ensures
            final(self).notes() == retained(old(self).notes(), active@),
            final(self).polyphonic() == old(self).polyphonic(),
    {
        proof {
            use_type_invariant(&*self);
        }
        let ghost start = voice_notes(self.notes);
        let n = notes_len(&self.notes);
        let mut i: usize = 0;
        let mut k: usize = 0;
        while i < n
            invariant
                n == start.len(),
                i <= n,
                k <= i,
                self.is_polyphonic == old(self).is_polyphonic,
                active@.len() == start.len(),
                k == retained(start.take(i as int), active@).len(),
                voice_notes(self.notes) == retained(start.take(i as int), active@) + start.skip(i as int),
                forall|j: int| 0 <= j < start.len() ==> #[trigger] start[j] < 128,
            decreases n - i,
        {
            let ghost kept = retained(start.take(i as int), active@);
            proof {
                lemma_retained_bounded(start.take(i as int), active@);
            }
            assert(start.take(i + 1).drop_last() =~= start.take(i as int));
            assert(start.take(i + 1).last() == start[i as int]);
            if active[i] {
                assert(voice_notes(self.notes) =~= kept.push(start[i as int]) + start.skip(i + 1));
                k = k + 1;
            } else {
                proof {
                    use_type_invariant(&*self);
                    let cur = voice_notes(self.notes);
                    assert forall|j: int| 0 <= j < cur.remove(k as int).len() implies #[trigger] cur.remove(
                        k as int,
                    )[j] < 128 by {
                        if j < k {
                            assert(cur.remove(k as int)[j] == cur[j]);
                        } else {
                            assert(cur.remove(k as int)[j] == cur[j + 1]);
                        }
                    }
                }
                notes_remove(&mut self.notes, k);
                assert(voice_notes(self.notes) =~= kept + start.skip(i + 1));
            }
            i = i + 1;
        }
        assert(start.take(n as int) =~= start);
        assert(start.skip(n as int) =~= Seq::<u8>::empty());
        assert(voice_notes(self.notes) =~= retained(start, active@));
        proof {
            lemma_retained_bounded(start, active@);
        }
    }

    /// Remove all voices.
    pub fn clear(&mut self)
        ensures
            final(self).notes() == Seq::<u8>::empty(),
            final(self).polyphonic() == old(self).polyphonic(),
    {
        notes_clear(&mut self.notes);
    }
}

impl Clone for VoiceAllocator {
    /// A copy with the same voices and mode.
    fn clone(&self) -> (r: VoiceAllocator)
        ensures
            r.notes() == self.notes(),
            r.polyphonic() == self.polyphonic(),
    {
        proof {
            use_type_invariant(self);
        }
        VoiceAllocator { notes: notes_clone(&self.notes), is_polyphonic: self.is_polyphonic }
    }
}

/// `retained` only keeps items of `notes`, so it keeps their bound.
pub proof fn lemma_retained_bounded(notes: Seq<u8>, keep: Seq<bool>)
    requires
        forall|j: int| 0 <= j < notes.len() ==> #[trigger] notes[j] < 128,
    ensures
        retained(notes, keep).len() <= notes.len(),
        forall|j: int|
            0 <= j < retained(notes, keep).len() ==> #[trigger] retained(notes, keep)[j] < 128,
    decreases notes.len(),
{
    if notes.len() > 0 {
        lemma_retained_bounded(notes.drop_last(), keep);
    }
}

} // verus!
