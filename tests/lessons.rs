use pitch_tutor::lesson::{parse_musical_sounds, split_chars, split_lines};
use pitch_tutor::note::MusicalNote::{self, A, B, C, CSharp, D, E, F, G};
use pitch_tutor::note::MusicalSound::{self, Note, Silence};

fn notes(ns: &[MusicalNote]) -> Vec<MusicalSound> {
    ns.iter().map(|n| Note(*n)).collect()
}

fn chars(s: &str) -> Vec<char> {
    s.chars().collect()
}

#[test]
fn phrases_are_separated_by_a_pause() {
    let r = parse_musical_sounds("C,D,E\nF,G").unwrap();
    assert_eq!(r, vec![Note(C), Note(D), Note(E), Silence, Note(F), Note(G)]);
}

#[test]
fn three_phrases_have_two_pauses() {
    let r = parse_musical_sounds("A\nB\nC#").unwrap();
    assert_eq!(r, vec![Note(A), Silence, Note(B), Silence, Note(CSharp)]);
}

#[test]
fn one_phrase_has_no_pause() {
    assert_eq!(parse_musical_sounds("C,D").unwrap(), notes(&[C, D]));
}

#[test]
fn empty_text_is_an_empty_lesson() {
    assert_eq!(parse_musical_sounds("").unwrap(), vec![]);
}

#[test]
fn final_line_feed_adds_no_phrase() {
    assert_eq!(parse_musical_sounds("C,D\n").unwrap(), notes(&[C, D]));
}

#[test]
fn crlf_line_endings_are_read() {
    let r = parse_musical_sounds("C\r\nD\r\n").unwrap();
    assert_eq!(r, vec![Note(C), Silence, Note(D)]);
}

#[test]
fn first_invalid_token_is_named() {
    let e = parse_musical_sounds("C,X,Y\nZ").unwrap_err();
    assert_eq!(e.token, "X");
    let e = parse_musical_sounds("C,D\nE,Q").unwrap_err();
    assert_eq!(e.token, "Q");
}

#[test]
fn empty_line_inside_a_lesson_is_an_empty_token() {
    let e = parse_musical_sounds("C\n\nD").unwrap_err();
    assert_eq!(e.token, "");
}

#[test]
fn trailing_comma_is_an_empty_token() {
    let e = parse_musical_sounds("C,").unwrap_err();
    assert_eq!(e.token, "");
}

#[test]
fn spaces_are_not_trimmed() {
    let e = parse_musical_sounds("C, D").unwrap_err();
    assert_eq!(e.token, " D");
}

#[test]
fn lone_carriage_return_stays_in_the_token() {
    let e = parse_musical_sounds("C\r").unwrap_err();
    assert_eq!(e.token, "C\r");
}

#[test]
fn split_chars_keeps_empty_pieces() {
    let r = split_chars(&chars(",a,,bc,"), ',');
    assert_eq!(r, vec![vec![], vec!['a'], vec![], vec!['b', 'c'], vec![]]);
    assert_eq!(split_chars(&[], ','), vec![Vec::<char>::new()]);
}

#[test]
fn split_lines_follows_line_endings() {
    assert_eq!(split_lines(&chars("a\r\nb\nc")), vec![vec!['a'], vec!['b'], vec!['c']]);
    assert_eq!(split_lines(&chars("a\n")), vec![vec!['a']]);
    assert_eq!(split_lines(&chars("")), Vec::<Vec<char>>::new());
    assert_eq!(split_lines(&chars("\n")), vec![Vec::<char>::new()]);
}
