use pitch_tutor::note::{note_from_midi_note_number, MusicalNote};

const TOKENS: &[&str] = &[
    "A", "A#", "B", "B#", "C", "C#", "D", "D#", "E", "E#", "F", "F#", "G", "G#",
];

#[test]
fn every_note_token_round_trips() {
    for t in TOKENS.iter().copied() {
        let n = MusicalNote::from_str(t).expect("a valid token");
        assert_eq!(n.to_string(), t);
    }
}

#[test]
fn the_twelve_plain_names_round_trip() {
    for t in ["A", "A#", "B", "C", "C#", "D", "D#", "E", "F", "F#", "G", "G#"] {
        assert_eq!(MusicalNote::from_str(t).unwrap().to_string(), t);
    }
}

#[test]
fn tokens_parse_to_their_notes() {
    assert_eq!(MusicalNote::from_str("A"), Ok(MusicalNote::A));
    assert_eq!(MusicalNote::from_str("F#"), Ok(MusicalNote::FSharp));
    assert_eq!(MusicalNote::from_str("B#"), Ok(MusicalNote::BSharp));
}

#[test]
fn invalid_tokens_are_refused_and_named() {
    for t in ["", "H", "c", "C##", "Cb", " C", "C ", "#", "A#B"] {
        let e = MusicalNote::from_str(t).unwrap_err();
        assert_eq!(e.token, t);
    }
}

#[test]
fn from_chars_reads_notes() {
    assert_eq!(MusicalNote::from_chars(&['G', '#']), Some(MusicalNote::GSharp));
    assert_eq!(MusicalNote::from_chars(&['E']), Some(MusicalNote::E));
    assert_eq!(MusicalNote::from_chars(&['E', 'b']), None);
    assert_eq!(MusicalNote::from_chars(&[]), None);
}

#[test]
fn midi_numbers_name_pitch_classes() {
    assert_eq!(note_from_midi_note_number(69), "A");
    assert_eq!(note_from_midi_note_number(60), "C");
    assert_eq!(note_from_midi_note_number(61), "C#");
    assert_eq!(note_from_midi_note_number(71), "B");
    assert_eq!(note_from_midi_note_number(0), "C");
    assert_eq!(note_from_midi_note_number(70), "A#");
    assert_eq!(note_from_midi_note_number(66), "F#");
}

#[test]
fn midi_numbers_to_notes() {
    assert_eq!(MusicalNote::from_midi_note_number(69), MusicalNote::A);
    assert_eq!(MusicalNote::from_midi_note_number(64), MusicalNote::E);
    assert_eq!(MusicalNote::from_midi_note_number(67 + 12), MusicalNote::G);
}

#[test]
fn pitch_classes_count_semitones_above_c() {
    assert_eq!(MusicalNote::C.pitch_class(), 0);
    assert_eq!(MusicalNote::A.pitch_class(), 9);
    assert_eq!(MusicalNote::B.pitch_class(), 11);
    assert_eq!(MusicalNote::BSharp.pitch_class(), 0);
    assert_eq!(MusicalNote::ESharp.pitch_class(), 5);
    assert!(MusicalNote::BSharp.same_pitch_class(&MusicalNote::C));
    assert!(!MusicalNote::B.same_pitch_class(&MusicalNote::C));
}
