use vstd::prelude::*;

use crate::note::{pitch_class, MusicalNote, MusicalSound};

verus! {

/// The first position at or after `i` that does not hold a pause.
pub open spec fn skip_silence(s: Seq<MusicalSound>, i: nat) -> nat
    decreases s.len() - i,
{
    if i < s.len() && s[i as int] is Silence {
        skip_silence(s, i + 1)
    } else {
        i
    }
}

/// Whether the note `heard` is the one the lesson `s` asks for at `i`.
pub open spec fn matches_at(s: Seq<MusicalSound>, i: nat, heard: MusicalNote) -> bool {
    &&& i < s.len()
    &&& s[i as int] is Note
    &&& pitch_class(s[i as int]->Note_0) == pitch_class(heard)
}

/// Where the cursor `i` stands after one tick: on a loud enough sound whose
/// pitch class is the awaited note's, past that note and the pauses after it;
/// else where it was.
pub open spec fn next_index(
    s: Seq<MusicalSound>,
    i: nat,
    active: bool,
    heard: Option<MusicalNote>,
) -> nat {
    if active && heard is Some && matches_at(s, i, heard->Some_0) {
        skip_silence(s, i + 1)
    } else {
        i
    }
}

/// Where the cursor stands after the ticks `obs`, each a pair of loudness
/// and heard note, starting from `i`.
pub open spec fn after_ticks(s: Seq<MusicalSound>, i: nat, obs: Seq<(bool, Option<MusicalNote>)>) -> nat
    decreases obs.len(),
{
    if obs.len() == 0 {
        i
    } else {
        next_index(s, after_ticks(s, i, obs.drop_last()), obs.last().0, obs.last().1)
    }
}

proof fn lemma_skip_silence_bounds(s: Seq<MusicalSound>, i: nat)
    requires
        i <= s.len(),
    ensures
        i <= skip_silence(s, i) <= s.len(),
    decreases s.len() - i,
{
    if i < s.len() && s[i as int] is Silence {
        lemma_skip_silence_bounds(s, i + 1);
    }
}

/// Over any run of ticks the cursor never moves back and never leaves the
/// lesson: from a cursor in the lesson, every later cursor is at least as
/// far and at most at the end.
pub proof fn lemma_cursor_monotone(
    s: Seq<MusicalSound>,
    i: nat,
    obs: Seq<(bool, Option<MusicalNote>)>,
    k: nat,
)
    requires
        i <= s.len(),
        k <= obs.len(),
    ensures
        i <= after_ticks(s, i, obs.take(k as int)) <= after_ticks(s, i, obs) <= s.len(),
    decreases obs.len(),
{
    if obs.len() > 0 {
        let prev = obs.drop_last();
        if k == obs.len() {
            assert(obs.take(k as int) =~= obs);
            lemma_cursor_monotone(s, i, prev, prev.len());
            assert(prev.take(prev.len() as int) =~= prev);
        } else {
            assert(obs.take(k as int) =~= prev.take(k as int));
            lemma_cursor_monotone(s, i, prev, k);
        }
        let j = after_ticks(s, i, prev);
        if j < s.len() {
            lemma_skip_silence_bounds(s, j + 1);
        }
    } else {
        assert(obs.take(k as int) =~= obs);
    }
}

/// A learner's progress through a lesson: the lesson and a cursor into it.
/// The lesson is complete when the cursor stands at its end.
pub struct Tutor {
    notes_sequence: Vec<MusicalSound>,
    current_note_index: usize,
}

impl Tutor {
    #[verifier::type_invariant]
    spec fn cursor_in_lesson(&self) -> bool {
        self.current_note_index <= self.notes_sequence.len()
    }

    /// The lesson.
    pub closed spec fn lesson(&self) -> Seq<MusicalSound> {
        self.notes_sequence@
    }

    /// The cursor: the position of the awaited note.
    pub closed spec fn index(&self) -> nat {
        self.current_note_index as nat
    }

    /// Whether every note of the lesson has been played.
    pub open spec fn is_done(&self) -> bool {
        self.index() == self.lesson().len()
    }

    /// Starts the lesson `notes` at its first position; an empty lesson is
    /// complete from the start.
    pub fn new(notes: Vec<MusicalSound>) -> (r: Tutor)
        ensures
            r.lesson() == notes@,
            r.index() == 0,
            notes@.len() == 0 ==> r.is_done(),
    {
        Tutor { notes_sequence: notes, current_note_index: 0 }
    }

    /// Takes one tick's observation: `active` tells whether the sound was
    /// loud enough to count, `heard` the note it was heard as, if any. At
    /// most one note is passed per tick, and the cursor never moves back.
    pub fn on_tick(&mut self, active: bool, heard: Option<MusicalNote>)
        ensures
            final(self).lesson() == old(self).lesson(),
            final(self).index() == next_index(
                old(self).lesson(),
                old(self).index(),
                active,
                heard,
            ),
            old(self).index() <= final(self).index() <= final(self).lesson().len(),
            !active ==> final(self).index() == old(self).index(),
            final(self).index() != old(self).index() ==> final(self).is_done()
                || final(self).lesson()[final(self).index() as int] is Note,
    {
        proof {
            use_type_invariant(&*self);
        }
        if !active {
            return;
        }
        let heard = match heard {
            Some(n) => n,
            None => return,
        };
        let len = self.notes_sequence.len();
        let i = self.current_note_index;
        if i >= len {
            return;
        }
        let awaited = match self.notes_sequence[i] {
            MusicalSound::Note(n) => n,
            MusicalSound::Silence => return,
        };
        if !awaited.same_pitch_class(&heard) {
            return;
        }
        let mut next = i + 1;
        while next < len && matches!(self.notes_sequence[next], MusicalSound::Silence)
            invariant
                len == self.notes_sequence.len(),
                i < next <= len,
                skip_silence(self.notes_sequence@, next as nat) == skip_silence(
                    self.notes_sequence@,
                    (i + 1) as nat,
                ),
            decreases len - next,
        {
            next = next + 1;
        }
        self.current_note_index = next;
    }

    /// The position of the awaited note.
    pub fn current_note_index(&self) -> (r: usize)
        ensures
            r == self.index(),
    {
        self.current_note_index
    }

    /// The lesson.
    pub fn notes_sequence(&self) -> (r: &Vec<MusicalSound>)
        ensures
            r@ == self.lesson(),
    {
        &self.notes_sequence
    }

    /// Whether every note of the lesson has been played.
    pub fn is_complete(&self) -> (r: bool)
        ensures
            r == self.is_done(),
    {
        proof {
            use_type_invariant(self);
        }
        self.current_note_index >= self.notes_sequence.len()
    }
}

} // verus!
