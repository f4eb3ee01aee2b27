use vstd::prelude::*;

verus! {

/// A written note name: a letter from A to G, possibly sharpened.
///
/// `BSharp` and `ESharp` are spellings of the pitch classes of `C` and `F`.
#[derive(Clone, Copy, Debug, PartialEq, Eq, Structural)]
pub enum MusicalNote {
    A,
    ASharp,
    B,
    BSharp,
    C,
    CSharp,
    D,
    DSharp,
    E,
    ESharp,
    F,
    FSharp,
    G,
    GSharp,
}

/// One step of a lesson: a note to play, or a pause between phrases.
#[derive(Clone, Copy, Debug, PartialEq, Eq, Structural)]
pub enum MusicalSound {
    Silence,
    Note(MusicalNote),
}

/// The written form of a note.
pub open spec fn note_token(n: MusicalNote) -> Seq<char> {
    match n {
        MusicalNote::A => seq!['A'],
        MusicalNote::ASharp => seq!['A', '#'],
        MusicalNote::B => seq!['B'],
        MusicalNote::BSharp => seq!['B', '#'],
        MusicalNote::C => seq!['C'],
        MusicalNote::CSharp => seq!['C', '#'],
        MusicalNote::D => seq!['D'],
        MusicalNote::DSharp => seq!['D', '#'],
        MusicalNote::E => seq!['E'],
        MusicalNote::ESharp => seq!['E', '#'],
        MusicalNote::F => seq!['F'],
        MusicalNote::FSharp => seq!['F', '#'],
        MusicalNote::G => seq!['G'],
        MusicalNote::GSharp => seq!['G', '#'],
    }
}

/// The note written with the letter `c`, sharpened or not.
pub open spec fn note_of_letter(c: char, sharp: bool) -> Option<MusicalNote> {
    if c == 'A' {
        Some(if sharp { MusicalNote::ASharp } else { MusicalNote::A })
    } else if c == 'B' {
        Some(if sharp { MusicalNote::BSharp } else { MusicalNote::B })
    } else if c == 'C' {
        Some(if sharp { MusicalNote::CSharp } else { MusicalNote::C })
    } else if c == 'D' {
        Some(if sharp { MusicalNote::DSharp } else { MusicalNote::D })
    } else if c == 'E' {
        Some(if sharp { MusicalNote::ESharp } else { MusicalNote::E })
    } else if c == 'F' {
        Some(if sharp { MusicalNote::FSharp } else { MusicalNote::F })
    } else if c == 'G' {
        Some(if sharp { MusicalNote::GSharp } else { MusicalNote::G })
    } else {
        None
    }
}

/// The note a token names: one letter from A to G, then an optional `#`.
pub open spec fn parse_note(t: Seq<char>) -> Option<MusicalNote> {
    if t.len() == 1 {
        note_of_letter(t[0], false)
    } else if t.len() == 2 && t[1] == '#' {
        note_of_letter(t[0], true)
    } else {
        None
    }
}

/// Semitones above C, from 0 to 11.
pub open spec fn pitch_class(n: MusicalNote) -> nat {
    match n {
        MusicalNote::C | MusicalNote::BSharp => 0,
        MusicalNote::CSharp => 1,
        MusicalNote::D => 2,
        MusicalNote::DSharp => 3,
        MusicalNote::E => 4,
        MusicalNote::F | MusicalNote::ESharp => 5,
        MusicalNote::FSharp => 6,
        MusicalNote::G => 7,
        MusicalNote::GSharp => 8,
        MusicalNote::A => 9,
        MusicalNote::ASharp => 10,
        MusicalNote::B => 11,
    }
}

/// The plain name of pitch class `k`: the natural note, else the sharpened
/// one below it.
pub open spec fn note_of_class(k: nat) -> MusicalNote {
    if k == 0 {
        MusicalNote::C
    } else if k == 1 {
        MusicalNote::CSharp
    } else if k == 2 {
        MusicalNote::D
    } else if k == 3 {
        MusicalNote::DSharp
    } else if k == 4 {
        MusicalNote::E
    } else if k == 5 {
        MusicalNote::F
    } else if k == 6 {
        MusicalNote::FSharp
    } else if k == 7 {
        MusicalNote::G
    } else if k == 8 {
        MusicalNote::GSharp
    } else if k == 9 {
        MusicalNote::A
    } else if k == 10 {
        MusicalNote::ASharp
    } else {
        MusicalNote::B
    }
}

/// A token that names no note.
#[derive(Clone, Debug, PartialEq, Eq)]
pub struct NoteParseError {
    pub token: String,
}

impl MusicalNote {
    /// Reads a note from its characters.
    pub fn from_chars(t: &[char]) -> (r: Option<MusicalNote>)
        ensures
            r == parse_note(t@),
    {
        if t.len() == 1 {
            Self::from_letter(t[0], false)
        } else if t.len() == 2 && t[1] == '#' {
            Self::from_letter(t[0], true)
        } else {
            None
        }
    }

    fn from_letter(c: char, sharp: bool) -> (r: Option<MusicalNote>)
        ensures
            r == note_of_letter(c, sharp),
    {
        if c == 'A' {
            Some(if sharp { MusicalNote::ASharp } else { MusicalNote::A })
        } else if c == 'B' {
            Some(if sharp { MusicalNote::BSharp } else { MusicalNote::B })
        } else if c == 'C' {
            Some(if sharp { MusicalNote::CSharp } else { MusicalNote::C })
        } else if c == 'D' {
            Some(if sharp { MusicalNote::DSharp } else { MusicalNote::D })
        } else if c == 'E' {
            Some(if sharp { MusicalNote::ESharp } else { MusicalNote::E })
        } else if c == 'F' {
            Some(if sharp { MusicalNote::FSharp } else { MusicalNote::F })
        } else if c == 'G' {
            Some(if sharp { MusicalNote::GSharp } else { MusicalNote::G })
        } else {
            None
        }
    }

    /// Reads a note from a token such as `"C"` or `"F#"`.
    pub fn from_str(s: &str) -> (r: Result<MusicalNote, NoteParseError>)
        ensures
            match r {
                Ok(n) => parse_note(s@) == Some(n),
                Err(e) => parse_note(s@) is None && e.token@ == s@,
            },
    {
        let len = s.unicode_len();
        let parsed = if len == 1 {
            Self::from_letter(s.get_char(0), false)
        } else if len == 2 && s.get_char(1) == '#' {
            Self::from_letter(s.get_char(0), true)
        } else {
            None
        };
        match parsed {
            Some(n) => Ok(n),
            None => Err(NoteParseError { token: String::from_str(s) }),
        }
    }
    /// The written form of the note, as `from_str` reads it.
    pub fn to_string(&self) -> (r: String)
        ensures
            r@ == note_token(*self),
    {
        let t = match self {
            MusicalNote::A => "A",
            MusicalNote::ASharp => "A#",
            MusicalNote::B => "B",
            MusicalNote::BSharp => "B#",
            MusicalNote::C => "C",
            MusicalNote::CSharp => "C#",
            MusicalNote::D => "D",
            MusicalNote::DSharp => "D#",
            MusicalNote::E => "E",
            MusicalNote::ESharp => "E#",
            MusicalNote::F => "F",
            MusicalNote::FSharp => "F#",
            MusicalNote::G => "G",
            MusicalNote::GSharp => "G#",
        };
        proof {
            reveal_strlit("A");
            reveal_strlit("A#");
            reveal_strlit("B");
            reveal_strlit("B#");
            reveal_strlit("C");
            reveal_strlit("C#");
            reveal_strlit("D");
            reveal_strlit("D#");
            reveal_strlit("E");
            reveal_strlit("E#");
            reveal_strlit("F");
            reveal_strlit("F#");
            reveal_strlit("G");
            reveal_strlit("G#");
        }
        let r = String::from_str(t);
        assert(r@ =~= note_token(*self));
        r
    }

    /// Semitones above C, from 0 to 11.
    pub fn pitch_class(&self) -> (r: u8)
        ensures
            r == pitch_class(*self),
    {
        match self {
            MusicalNote::C | MusicalNote::BSharp => 0,
            MusicalNote::CSharp => 1,
            MusicalNote::D => 2,
            MusicalNote::DSharp => 3,
            MusicalNote::E => 4,
            MusicalNote::F | MusicalNote::ESharp => 5,
            MusicalNote::FSharp => 6,
            MusicalNote::G => 7,
            MusicalNote::GSharp => 8,
            MusicalNote::A => 9,
            MusicalNote::ASharp => 10,
            MusicalNote::B => 11,
        }
    }

    /// Whether two notes sound as the same pitch class.
    pub fn same_pitch_class(&self, other: &MusicalNote) -> (r: bool)
        ensures
            r == (pitch_class(*self) == pitch_class(*other)),
    {
        self.pitch_class() == other.pitch_class()
    }

    /// The plain name of the pitch class of MIDI note `midi_note_number`
    /// (MIDI note 60 is middle C).
    pub fn from_midi_note_number(midi_note_number: usize) -> (r: MusicalNote)
        ensures
            r == note_of_class((midi_note_number % 12) as nat),
            pitch_class(r) == midi_note_number % 12,
    {
        let k = midi_note_number % 12;
        if k == 0 {
            MusicalNote::C
        } else if k == 1 {
            MusicalNote::CSharp
        } else if k == 2 {
            MusicalNote::D
        } else if k == 3 {
            MusicalNote::DSharp
        } else if k == 4 {
            MusicalNote::E
        } else if k == 5 {
            MusicalNote::F
        } else if k == 6 {
            MusicalNote::FSharp
        } else if k == 7 {
            MusicalNote::G
        } else if k == 8 {
            MusicalNote::GSharp
        } else if k == 9 {
            MusicalNote::A
        } else if k == 10 {
            MusicalNote::ASharp
        } else {
            MusicalNote::B
        }
    }
}

/// The name of the pitch class of MIDI note `midi_note_number`, one of
/// C, C#, D, D#, E, F, F#, G, G#, A, A#, B.
pub fn note_from_midi_note_number(midi_note_number: usize) -> (r: String)
    ensures
        r@ == note_token(note_of_class((midi_note_number % 12) as nat)),
{
    MusicalNote::from_midi_note_number(midi_note_number).to_string()
}

/// Reading a note's written form gives the note back, and a token that names
/// a note is that note's written form: parsing then formatting any valid
/// token returns the token itself.
pub proof fn lemma_token_round_trip(n: MusicalNote, t: Seq<char>)
    ensures
        parse_note(note_token(n)) == Some(n),
        parse_note(t) == Some(n) ==> note_token(n) =~= t,
{
}

} // verus!
