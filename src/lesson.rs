use vstd::prelude::*;

use crate::note::{parse_note, MusicalNote, MusicalSound};
use crate::views;

verus! {

/// The pieces of `s` between the occurrences of `sep`, in order: one more
/// piece than there are separators.
pub open spec fn split_at_char(s: Seq<char>, sep: char) -> Seq<Seq<char>>
    decreases s.len(),
{
    if s.len() == 0 {
        seq![Seq::empty()]
    } else {
        let p = split_at_char(s.drop_last(), sep);
        if s.last() == sep {
            p.push(Seq::empty())
        } else {
            p.update(p.len() - 1, p.last().push(s.last()))
        }
    }
}

/// `l` without a final carriage return.
pub open spec fn strip_cr(l: Seq<char>) -> Seq<char> {
    if l.len() > 0 && l.last() == '\r' {
        l.drop_last()
    } else {
        l
    }
}

/// The lines of `s`: the pieces between line feeds, each that a line feed
/// ends without a carriage return before it; a last piece that no line feed
/// ends counts only when it is not empty.
pub open spec fn lines_of(s: Seq<char>) -> Seq<Seq<char>> {
    let pieces = split_at_char(s, '\n');
    let ended = Seq::new((pieces.len() - 1) as nat, |i: int| strip_cr(pieces[i]));
    if pieces.last().len() == 0 {
        ended
    } else {
        ended.push(pieces.last())
    }
}

/// The tokens of each phrase of a lesson text: its lines, cut at commas.
pub open spec fn phrase_tokens(s: Seq<char>) -> Seq<Seq<Seq<char>>> {
    lines_of(s).map_values(|l: Seq<char>| split_at_char(l, ','))
}

/// The notes that the tokens `toks` name.
pub open spec fn sounds_of(toks: Seq<Seq<char>>) -> Seq<MusicalSound> {
    toks.map_values(|t: Seq<char>| MusicalSound::Note(parse_note(t)->Some_0))
}

/// `ps` in order, with `sep` between each two of them.
pub open spec fn interspersed<T>(ps: Seq<Seq<T>>, sep: Seq<T>) -> Seq<Seq<T>> {
    if ps.len() == 0 {
        Seq::empty()
    } else {
        Seq::new((2 * ps.len() - 1) as nat, |k: int| if k % 2 == 0 { ps[k / 2] } else { sep })
    }
}

/// Whether every token of every phrase names a note.
pub open spec fn all_tokens_valid(p: Seq<Seq<Seq<char>>>) -> bool {
    forall|x: int, y: int|
        0 <= x < p.len() && 0 <= y < p[x].len() ==> (#[trigger] parse_note(p[x][y])) is Some
}

/// Whether token `b` of phrase `a` is the first, in reading order, that
/// names no note.
pub open spec fn first_invalid_token(p: Seq<Seq<Seq<char>>>, a: int, b: int) -> bool {
    &&& 0 <= a < p.len()
    &&& 0 <= b < p[a].len()
    &&& parse_note(p[a][b]) is None
    &&& forall|x: int, y: int|
        0 <= x < a && 0 <= y < p[x].len() ==> (#[trigger] parse_note(p[x][y])) is Some
    &&& forall|y: int| 0 <= y < b ==> (#[trigger] parse_note(p[a][y])) is Some
}

/// The lesson a valid text describes: the notes of its phrases, with a
/// pause between each two phrases.
pub open spec fn lesson_of(s: Seq<char>) -> Seq<MusicalSound> {
    interspersed(phrase_sounds(s), seq![MusicalSound::Silence]).flatten()
}

/// The notes of each phrase of a valid lesson text.
pub open spec fn phrase_sounds(s: Seq<char>) -> Seq<Seq<MusicalSound>> {
    phrase_tokens(s).map_values(|p: Seq<Seq<char>>| sounds_of(p))
}

/// A lesson text holds a token that names no note.
#[derive(Clone, Debug, PartialEq, Eq)]
pub struct LessonError {
    pub token: String,
}

proof fn lemma_split_nonempty(s: Seq<char>, sep: char)
    ensures
        split_at_char(s, sep).len() >= 1,
    decreases s.len(),
{
    if s.len() > 0 {
        lemma_split_nonempty(s.drop_last(), sep);
    }
}

/// Cuts `s` at each `sep`.
pub fn split_chars(s: &[char], sep: char) -> (r: Vec<Vec<char>>)
    ensures
        views(r@) == split_at_char(s@, sep),
{
    let mut done: Vec<Vec<char>> = Vec::new();
    let mut cur: Vec<char> = Vec::new();
    let mut i: usize = 0;
    while i < s.len()
        invariant
            i <= s.len(),
            views(done@).push(cur@) == split_at_char(s@.take(i as int), sep),
        decreases s.len() - i,
    {
        let ghost p = views(done@).push(cur@);
        assert(s@.take(i + 1).drop_last() =~= s@.take(i as int));
        if s[i] == sep {
            done.push(cur);
            cur = Vec::new();
            assert(views(done@).push(cur@) =~= p.push(Seq::empty()));
        } else {
            cur.push(s[i]);
            assert(views(done@).push(cur@) =~= p.update(p.len() - 1, p.last().push(s@[i as int])));
        }
        i = i + 1;
    }
    assert(s@.take(i as int) =~= s@);
    done.push(cur);
    done
}

/// The characters of `text`.
fn chars_of(text: &str) -> (r: Vec<char>)
    ensures
        r@ == text@,
{
    let mut r: Vec<char> = Vec::new();
    for c in it: text.chars()
        invariant
            r@ == it.seq().take(it.index() as int),
            it.seq() == text@,
    {
        r.push(c);
    }
    r
}

/// The lines of `s`.
pub fn split_lines(s: &[char]) -> (r: Vec<Vec<char>>)
    ensures
        views(r@) == lines_of(s@),
{
    let pieces = split_chars(s, '\n');
    proof {
        lemma_split_nonempty(s@, '\n');
    }
    let ghost ps = views(pieces@);
    let n = pieces.len();
    let mut lines: Vec<Vec<char>> = Vec::new();
    let mut k: usize = 0;
    while k + 1 < n
        invariant
            n == pieces@.len(),
            n >= 1,
            ps == views(pieces@),
            k + 1 <= n,
            views(lines@) == Seq::new(k as nat, |i: int| strip_cr(ps[i])),
        decreases n - k,
    {
        let mut line = vstd::slice::slice_to_vec(pieces[k].as_slice());
        let len = line.len();
        if len > 0 && line[len - 1] == '\r' {
            line.pop();
        }
        assert(line@ =~= strip_cr(ps[k as int]));
        let ghost before = views(lines@);
        lines.push(line);
        assert(views(lines@) =~= before.push(strip_cr(ps[k as int])));
        k = k + 1;
        assert(views(lines@) =~= Seq::new(k as nat, |i: int| strip_cr(ps[i])));
    }
    if pieces[n - 1].len() > 0 {
        lines.push(vstd::slice::slice_to_vec(pieces[n - 1].as_slice()));
    }
    assert(views(lines@) =~= lines_of(s@));
    lines
}

/// The items of `phrases` in order, with `sep` between each two.
///
/// Relies on `itertools::intersperse`, which yields the first item, then a
/// clone of the separator before each further item.
#[verifier::external_body]
fn intersperse_phrases(phrases: Vec<Vec<MusicalSound>>, sep: Vec<MusicalSound>) -> (r: Vec<
    Vec<MusicalSound>,
>)
    ensures
        views(r@) == interspersed(views(phrases@), sep@),
{
    itertools::intersperse(phrases, sep).collect()
}

/// The characters of `t` as a string.
///
/// Relies on `FromIterator<&char>` for `String`, which pushes each character
/// in order.
#[verifier::external_body]
fn string_of_chars(t: &[char]) -> (r: String)
    ensures
        r@ == t@,
{
    t.iter().collect()
}

/// The contents of `parts`, one after another.
fn concat(parts: &Vec<Vec<MusicalSound>>) -> (r: Vec<MusicalSound>)
    ensures
        r@ == views(parts@).flatten(),
{
    let mut out: Vec<MusicalSound> = Vec::new();
    let mut k: usize = 0;
    while k < parts.len()
        invariant
            k <= parts@.len(),
            out@ == views(parts@).take(k as int).flatten(),
        decreases parts.len() - k,
    {
        let mut piece = vstd::slice::slice_to_vec(parts[k].as_slice());
        proof {
            let ps = views(parts@);
            assert(ps.take(k + 1) =~= ps.take(k as int) + seq![ps[k as int]]);
            vstd::seq_lib::lemma_flatten_concat(ps.take(k as int), seq![ps[k as int]]);
            assert(seq![ps[k as int]].flatten() =~= ps[k as int]) by {
                reveal_with_fuel(Seq::flatten, 2);
            }
        }
        out.append(&mut piece);
        k = k + 1;
    }
    assert(views(parts@).take(k as int) =~= views(parts@));
    out
}

/// Reads a lesson: one phrase per line, its notes separated by commas, a
/// pause between each two phrases. Fails on the first token, in reading
/// order, that names no note, and names it.
pub fn parse_musical_sounds(file_content: &str) -> (r: Result<Vec<MusicalSound>, LessonError>)
    ensures
        match r {
            Ok(v) => all_tokens_valid(phrase_tokens(file_content@)) && v@ == lesson_of(
                file_content@,
            ),
            Err(e) => exists|a: int, b: int|
                first_invalid_token(phrase_tokens(file_content@), a, b) && e.token@ == phrase_tokens(
                    file_content@,
                )[a][b],
        },
{
    let chars = chars_of(file_content);
    let lines = split_lines(chars.as_slice());
    let ghost p = phrase_tokens(file_content@);
    let mut phrases: Vec<Vec<MusicalSound>> = Vec::new();
    let mut a: usize = 0;
    while a < lines.len()
        invariant
            p == phrase_tokens(file_content@),
            views(lines@) == lines_of(file_content@),
            a <= lines@.len(),
            forall|x: int, y: int|
                0 <= x < a && 0 <= y < p[x].len() ==> (#[trigger] parse_note(p[x][y])) is Some,
            views(phrases@) == Seq::new(a as nat, |x: int| sounds_of(p[x])),
        decreases lines.len() - a,
    {
        let toks = split_chars(lines[a].as_slice(), ',');
        assert(views(toks@) == p[a as int]);
        let mut phrase: Vec<MusicalSound> = Vec::new();
        let mut b: usize = 0;
        while b < toks.len()
            invariant
                p == phrase_tokens(file_content@),
                a < p.len(),
                views(toks@) == p[a as int],
                b <= toks@.len(),
                forall|x: int, y: int|
                    0 <= x < a && 0 <= y < p[x].len() ==> (#[trigger] parse_note(p[x][y])) is Some,
                forall|y: int| 0 <= y < b ==> (#[trigger] parse_note(p[a as int][y])) is Some,
                phrase@ == sounds_of(p[a as int].take(b as int)),
            decreases toks.len() - b,
        {
            assert(toks@[b as int]@ == p[a as int][b as int]);
            match MusicalNote::from_chars(toks[b].as_slice()) {
                Some(n) => {
                    phrase.push(MusicalSound::Note(n));
                    assert(phrase@ =~= sounds_of(p[a as int].take(b + 1)));
                },
                None => {
                    assert(first_invalid_token(p, a as int, b as int));
                    return Err(LessonError { token: string_of_chars(toks[b].as_slice()) });
                },
            }
            b = b + 1;
        }
        assert(p[a as int].take(b as int) =~= p[a as int]);
        let ghost before = views(phrases@);
        phrases.push(phrase);
        assert(views(phrases@) =~= before.push(sounds_of(p[a as int])));
        a = a + 1;
        assert(views(phrases@) =~= Seq::new(a as nat, |x: int| sounds_of(p[x])));
    }
    let ghost parts = views(phrases@);
    assert(parts =~= phrase_sounds(file_content@));
    let sep = vec![MusicalSound::Silence];
    assert(sep@ =~= seq![MusicalSound::Silence]);
    let joined = intersperse_phrases(phrases, sep);
    let sounds = concat(&joined);
    assert(p.len() == lines@.len());
    Ok(sounds)
}

} // verus!
