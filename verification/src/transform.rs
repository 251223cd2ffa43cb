//! From a text to its form in a case: the text is segmented, every word is
//! rendered, and a separator is written at every boundary.

use crate::render::{
    spec_lowercase, spec_titlecase, spec_uppercase, write_lowercase, write_titlecase,
    write_uppercase,
};
use crate::segment::{
    events_within, lemma_events_of, lemma_words_within, segment, spec_events, spec_words, Event,
};
use crate::text::chars_of;
use vstd::prelude::*;

verus! {

/// How one word is written.
#[derive(Clone, Copy, Debug, PartialEq, Eq, Structural)]
pub enum WordCase {
    /// All in lowercase.
    Lower,
    /// All in uppercase.
    Upper,
    /// The first letter as a capital, the rest in lowercase.
    Title,
}

/// What makes up a case: how the first word is written, how every later
/// word is written, and what stands between two words.
#[derive(Clone, Copy, Debug, PartialEq, Eq, Structural)]
pub struct Pattern {
    pub first: WordCase,
    pub rest: WordCase,
    pub separator: Option<char>,
}

/// `word` as `case` writes it.
pub open spec fn spec_render(word: Seq<char>, case: WordCase) -> Seq<char> {
    match case {
        WordCase::Lower => spec_lowercase(word),
        WordCase::Upper => spec_uppercase(word),
        WordCase::Title => spec_titlecase(word),
    }
}

/// One of `events` is a word.
pub open spec fn has_word(events: Seq<Event>) -> bool {
    exists|i: int| 0 <= i < events.len() && #[trigger] events[i] is Word
}

/// What `events` write, in order: for a boundary the separator of
/// `pattern`, if it has one; for a word its characters in `s`, rendered as
/// the first word if no word came before it, and as a later word
/// otherwise.
pub open spec fn spec_format(s: Seq<char>, events: Seq<Event>, pattern: Pattern) -> Seq<char>
    decreases events.len(),
{
    if events.len() == 0 {
        Seq::empty()
    } else {
        let before = spec_format(s, events.drop_last(), pattern);
        match events.last() {
            Event::Boundary => match pattern.separator {
                Some(c) => before.push(c),
                None => before,
            },
            Event::Word { start, end } => before + spec_render(
                s.subrange(start as int, end as int),
                if has_word(events.drop_last()) {
                    pattern.rest
                } else {
                    pattern.first
                },
            ),
        }
    }
}

/// `s` in the case that `pattern` describes.
pub open spec fn spec_transform(s: Seq<char>, digits: bool, pattern: Pattern) -> Seq<char> {
    spec_format(s, spec_events(s, digits), pattern)
}

/// Appends the characters `start..end` of `chars` as `case` writes them.
pub fn write_word(chars: &[char], start: usize, end: usize, case: WordCase, out: &mut String)
    requires
        start <= end <= chars@.len(),
    ensures
        final(out)@ == old(out)@ + spec_render(chars@.subrange(start as int, end as int), case),
{
    match case {
        WordCase::Lower => write_lowercase(chars, start, end, out),
        WordCase::Upper => write_uppercase(chars, start, end, out),
        WordCase::Title => write_titlecase(chars, start, end, out),
    }
}

/// Appends what `events` write of the text `chars` in the case that
/// `pattern` describes.
pub fn format(chars: &[char], events: &[Event], pattern: Pattern, out: &mut String)
    requires
        events_within(events@, chars@.len()),
    ensures
        final(out)@ == old(out)@ + spec_format(chars@, events@, pattern),
{
    let mut first = true;
    let mut j: usize = 0;
    assert(out@ =~= old(out)@ + spec_format(chars@, events@.take(0), pattern));
    while j < events.len()
        invariant
            0 <= j <= events@.len(),
            events_within(events@, chars@.len()),
            first == !has_word(events@.take(j as int)),
            out@ == old(out)@ + spec_format(chars@, events@.take(j as int), pattern),
        decreases events.len() - j,
    {
        let ghost done = events@.take(j as int);
        let ghost more = events@.take(j + 1);
        assert(more.drop_last() =~= done);
        assert(more.last() == events@[j as int]);
        match events[j] {
            Event::Boundary => {
                match pattern.separator {
                    Some(c) => {
                        out.push(c);
                    },
                    None => {},
                }
                assert(has_word(more) == has_word(done)) by {
                    if has_word(more) {
                        let k = choose|k: int| 0 <= k < more.len() && #[trigger] more[k] is Word;
                        assert(done[k] is Word);
                    }
                    if has_word(done) {
                        let k = choose|k: int| 0 <= k < done.len() && #[trigger] done[k] is Word;
                        assert(more[k] is Word);
                    }
                }
            },
            Event::Word { start, end } => {
                let case = if first {
                    pattern.first
                } else {
                    pattern.rest
                };
                write_word(chars, start, end, case, out);
                first = false;
                assert(more[j as int] is Word);
            },
        }
        assert(out@ =~= old(out)@ + spec_format(chars@, more, pattern));
        j = j + 1;
    }
    assert(events@.take(events@.len() as int) =~= events@);
}

/// The characters `start..end` of `chars` as a string.
pub fn string_of(chars: &[char], start: usize, end: usize) -> (out: String)
    requires
        start <= end <= chars@.len(),
    ensures
        out@ == chars@.subrange(start as int, end as int),
{
    let mut out = String::new();
    let mut j: usize = start;
    while j < end
        invariant
            start <= j <= end <= chars@.len(),
            out@ == chars@.subrange(start as int, j as int),
        decreases end - j,
    {
        out.push(chars[j]);
        assert(out@ =~= chars@.subrange(start as int, j + 1));
        j = j + 1;
    }
    out
}

/// The words of `s`, in order.
///
/// With `number_starts_word` set, a run of digits is a word of its own.
pub fn split_words(s: &str, number_starts_word: bool) -> (words: Vec<String>)
    ensures
        words@.len() == spec_words(s@, number_starts_word).len(),
        forall|k: int|
            0 <= k < words@.len() ==> (#[trigger] words@[k])@ == s@.subrange(
                spec_words(s@, number_starts_word)[k].0,
                spec_words(s@, number_starts_word)[k].1,
            ),
{
    let chars = chars_of(s);
    let events = segment(&chars, number_starts_word);
    let ghost spans = spec_words(s@, number_starts_word);
    proof {
        lemma_events_of(spans);
        lemma_words_within(s@, s@.len() as int, number_starts_word);
    }
    let mut words: Vec<String> = Vec::new();
    let mut j: usize = 0;
    while j < events.len()
        invariant
            chars@ == s@,
            events@ == spec_events(s@, number_starts_word),
            spans == spec_words(s@, number_starts_word),
            events@.len() == if spans.len() == 0 {
                0
            } else {
                2 * spans.len() - 1
            },
            forall|k: int|
                0 <= k < spans.len() ==> #[trigger] events@[2 * k] == (Event::Word {
                    start: spans[k].0 as usize,
                    end: spans[k].1 as usize,
                }),
            forall|k: int| 0 <= k < spans.len() - 1 ==> #[trigger] events@[2 * k + 1] == Event::Boundary,
            forall|k: int| 0 <= k < spans.len() ==> 0 <= (#[trigger] spans[k]).0 < spans[k].1 <= s@.len(),
            0 <= j <= events@.len(),
            2 * words@.len() == j || 2 * words@.len() == j + 1,
            forall|k: int|
                0 <= k < words@.len() ==> (#[trigger] words@[k])@ == s@.subrange(
                    spans[k].0,
                    spans[k].1,
                ),
        decreases events.len() - j,
    {
        let ghost k = words@.len() as int;
        match events[j] {
            Event::Word { start, end } => {
                proof {
                    if 2 * k == j + 1 {
                        assert(events@[2 * (k - 1) + 1] == Event::Boundary);
                    }
                    assert(events@[2 * k] == (Event::Word {
                        start: spans[k].0 as usize,
                        end: spans[k].1 as usize,
                    }));
                    assert(0 <= spans[k].0 < spans[k].1 <= s@.len());
                }
                let word = string_of(&chars, start, end);
                words.push(word);
            },
            Event::Boundary => {
                proof {
                    if 2 * k == j {
                        assert(events@[2 * k] is Word);
                    }
                }
            },
        }
        j = j + 1;
    }
    words
}

/// Converts `s` to the case that `pattern` describes.
///
/// With `number_starts_word` set, a run of digits is a word of its own.
pub fn transform(s: &str, number_starts_word: bool, pattern: Pattern) -> (out: String)
    ensures
        out@ == spec_transform(s@, number_starts_word, pattern),
{
    let chars = chars_of(s);
    let events = segment(&chars, number_starts_word);
    let mut out = String::new();
    format(&chars, &events, pattern, &mut out);
    assert(out@ =~= spec_transform(s@, number_starts_word, pattern));
    out
}

} // verus!
