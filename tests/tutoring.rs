use pitch_tutor::note::MusicalNote::{self, A, BSharp, C, D, E};
use pitch_tutor::note::MusicalSound::{Note, Silence};
use pitch_tutor::tutor::Tutor;

#[test]
fn matching_notes_walk_past_pauses_to_completion() {
    let mut t = Tutor::new(vec![Note(C), Silence, Note(D)]);
    assert_eq!(t.current_note_index(), 0);
    t.on_tick(true, Some(C));
    assert_eq!(t.current_note_index(), 2);
    assert!(!t.is_complete());
    t.on_tick(true, Some(D));
    assert_eq!(t.current_note_index(), 3);
    assert!(t.is_complete());
    t.on_tick(true, Some(D));
    assert_eq!(t.current_note_index(), 3);
}

#[test]
fn quiet_sound_does_not_advance() {
    let mut t = Tutor::new(vec![Note(C), Note(D)]);
    t.on_tick(false, Some(C));
    assert_eq!(t.current_note_index(), 0);
}

#[test]
fn empty_lesson_is_complete_at_start() {
    let t = Tutor::new(vec![]);
    assert!(t.is_complete());
    assert_eq!(t.current_note_index(), 0);
}

#[test]
fn wrong_or_unknown_note_does_not_advance() {
    let mut t = Tutor::new(vec![Note(C), Note(D)]);
    t.on_tick(true, Some(E));
    assert_eq!(t.current_note_index(), 0);
    t.on_tick(true, None);
    assert_eq!(t.current_note_index(), 0);
}

#[test]
fn one_step_per_tick_while_a_note_is_held() {
    let mut t = Tutor::new(vec![Note(A), Note(A), Note(A)]);
    t.on_tick(true, Some(A));
    assert_eq!(t.current_note_index(), 1);
    t.on_tick(true, Some(A));
    assert_eq!(t.current_note_index(), 2);
}

#[test]
fn enharmonic_spelling_matches() {
    let mut t = Tutor::new(vec![Note(BSharp)]);
    t.on_tick(true, Some(MusicalNote::C));
    assert!(t.is_complete());
}

#[test]
fn pause_at_cursor_is_never_matched() {
    let mut t = Tutor::new(vec![Silence, Note(C)]);
    t.on_tick(true, Some(C));
    assert_eq!(t.current_note_index(), 0);
}

#[test]
fn trailing_pauses_are_skipped_to_the_end() {
    let mut t = Tutor::new(vec![Note(C), Silence, Silence]);
    t.on_tick(true, Some(C));
    assert!(t.is_complete());
    assert_eq!(t.notes_sequence().len(), 3);
}
