//! The segmenter: where the words of a text begin and end.
//!
//! A text falls into runs of characters that can be part of a word, held
//! apart by characters that cannot, which are dropped. Within a run a new
//! word begins
//!
//! - at an uppercase or titlecase letter that follows a lowercase letter or
//!   a digraph (`fooBar` is `foo`|`Bar`),
//! - at an uppercase or titlecase letter that a lowercase letter follows
//!   (`XMLHttp` is `XML`|`Http`),
//! - at every digraph, the non-Greek titlecase letters,
//! - and, where digits are to start words, wherever a digit meets a
//!   character that is none (`aes128` is `aes`|`128`).
//!
//! Nonspacing marks are transparent to all four rules: a letter with marks
//! after it counts as the letter alone.

use crate::tables::{
    allowed_in_word, category_of, is_non_greek_titlecase, is_nonspacing_mark, lemma_ascii,
    spec_allowed_in_word, spec_is_non_greek_titlecase, spec_is_nonspacing_mark, spec_letter_casing,
    CasedLetterKind,
};
use vstd::prelude::*;

verus! {

/// What a character is to the segmenter.
#[derive(Clone, Copy, Debug, PartialEq, Eq, Structural)]
pub enum Role {
    /// Cannot be part of a word.
    Separator,
    /// A nonspacing mark that is no cased letter: transparent.
    Mark,
    /// Part of a word, but neither a cased letter nor a mark.
    Plain,
    /// A lowercase letter.
    Lower,
    /// An uppercase letter, or a Greek titlecase letter.
    Upper,
    /// A titlecase letter that is not Greek.
    Digraph,
}

/// One step of a segmentation, in the order in which a sink receives them.
#[derive(Clone, Copy, Debug, PartialEq, Eq, Structural)]
pub enum Event {
    /// The word that the characters `start..end` of the text make up.
    Word { start: usize, end: usize },
    /// The boundary between the word before and the word after.
    Boundary,
}

/// The role of `c`.
pub open spec fn spec_role(c: char) -> Role {
    if !spec_allowed_in_word(c) {
        Role::Separator
    } else {
        match spec_letter_casing(c) {
            Some(CasedLetterKind::Lowercase) => Role::Lower,
            Some(CasedLetterKind::Uppercase) => Role::Upper,
            Some(CasedLetterKind::Titlecase) => if spec_is_non_greek_titlecase(c) {
                Role::Digraph
            } else {
                Role::Upper
            },
            None => if spec_is_nonspacing_mark(c) {
                Role::Mark
            } else {
                Role::Plain
            },
        }
    }
}

/// `c` is an ASCII decimal digit.
pub open spec fn spec_is_digit(c: char) -> bool {
    '0' <= c <= '9'
}

/// The index of the nearest character before `i` that is no mark, or -1 if
/// there is none.
pub open spec fn prev_solid(s: Seq<char>, i: int) -> int
    decreases i,
{
    if i <= 0 {
        -1
    } else if spec_role(s[i - 1]) != Role::Mark {
        i - 1
    } else {
        prev_solid(s, i - 1)
    }
}

/// The index of the nearest character at or after `i` that is no mark, or
/// the length of `s` if there is none.
pub open spec fn next_solid(s: Seq<char>, i: int) -> int
    decreases s.len() - i,
{
    if i >= s.len() {
        s.len() as int
    } else if spec_role(s[i]) != Role::Mark {
        i
    } else {
        next_solid(s, i + 1)
    }
}

/// The character before `i`, marks aside, is a lowercase letter or a
/// digraph.
pub open spec fn follows_lower(s: Seq<char>, i: int) -> bool {
    let p = prev_solid(s, i);
    p >= 0 && (spec_role(s[p]) == Role::Lower || spec_role(s[p]) == Role::Digraph)
}

/// The character after `i`, marks aside, is a lowercase letter.
pub open spec fn precedes_lower(s: Seq<char>, i: int) -> bool {
    let n = next_solid(s, i + 1);
    n < s.len() && spec_role(s[n]) == Role::Lower
}

/// Whether the character before `i` of the same run, marks aside, is a
/// digit; `None` if the run has no such character.
pub open spec fn digit_before(s: Seq<char>, i: int) -> Option<bool> {
    let p = prev_solid(s, i);
    if p >= 0 && spec_role(s[p]) != Role::Separator {
        Some(spec_is_digit(s[p]))
    } else {
        None
    }
}

/// Of the character at `i`, which is no mark, and the character before it
/// in the same run, marks aside, exactly one is a digit.
pub open spec fn digit_change(s: Seq<char>, i: int) -> bool {
    spec_role(s[i]) != Role::Mark && digit_before(s, i) == Some(!spec_is_digit(s[i]))
}

/// A boundary lies between the characters at `i - 1` and `i`, which belong
/// to one run.
pub open spec fn boundary_at(s: Seq<char>, i: int, digits: bool) -> bool {
    &&& 0 < i < s.len()
    &&& spec_role(s[i - 1]) != Role::Separator
    &&& spec_role(s[i]) != Role::Separator
    &&& {
        ||| spec_role(s[i]) == Role::Digraph
        ||| spec_role(s[i]) == Role::Upper && (follows_lower(s, i) || precedes_lower(s, i))
        ||| digits && digit_change(s, i)
    }
}

/// A word begins at `i`: at the first character of a run, or at a boundary
/// within one.
pub open spec fn word_start(s: Seq<char>, i: int, digits: bool) -> bool {
    &&& 0 <= i < s.len()
    &&& spec_role(s[i]) != Role::Separator
    &&& (i == 0 || spec_role(s[i - 1]) == Role::Separator || boundary_at(s, i, digits))
}

/// The end of the word that holds the character at `i`: the index after
/// `i` at which the text ends, a separator stands or the next word begins.
pub open spec fn word_end(s: Seq<char>, i: int, digits: bool) -> int
    decreases s.len() - i,
{
    if i + 1 >= s.len() || spec_role(s[i + 1]) == Role::Separator || boundary_at(
        s,
        i + 1,
        digits,
    ) {
        i + 1
    } else {
        word_end(s, i + 1, digits)
    }
}

/// The words that begin before `n`, in order, each as the pair of its
/// start and its end.
pub open spec fn words_before(s: Seq<char>, n: int, digits: bool) -> Seq<(int, int)>
    decreases n,
{
    if n <= 0 {
        Seq::empty()
    } else if word_start(s, n - 1, digits) {
        words_before(s, n - 1, digits).push((n - 1, word_end(s, n - 1, digits)))
    } else {
        words_before(s, n - 1, digits)
    }
}

/// The words of `s`, in order, each as the pair of its start and its end.
pub open spec fn spec_words(s: Seq<char>, digits: bool) -> Seq<(int, int)> {
    words_before(s, s.len() as int, digits)
}

/// The events that a list of words gives: each word in turn, and a
/// boundary before every word but the first.
pub open spec fn events_of(words: Seq<(int, int)>) -> Seq<Event>
    decreases words.len(),
{
    if words.len() == 0 {
        Seq::empty()
    } else {
        let word = Event::Word { start: words.last().0 as usize, end: words.last().1 as usize };
        if words.len() == 1 {
            seq![word]
        } else {
            events_of(words.drop_last()).push(Event::Boundary).push(word)
        }
    }
}

/// The events of the segmentation of `s`.
pub open spec fn spec_events(s: Seq<char>, digits: bool) -> Seq<Event> {
    events_of(spec_words(s, digits))
}

/// How many of `events` are words.
pub open spec fn word_count(events: Seq<Event>) -> nat
    decreases events.len(),
{
    if events.len() == 0 {
        0
    } else if events.last() is Word {
        word_count(events.drop_last()) + 1
    } else {
        word_count(events.drop_last())
    }
}

/// How many of `events` are boundaries.
pub open spec fn boundary_count(events: Seq<Event>) -> nat
    decreases events.len(),
{
    if events.len() == 0 {
        0
    } else if events.last() is Boundary {
        boundary_count(events.drop_last()) + 1
    } else {
        boundary_count(events.drop_last())
    }
}

/// Some character of `s` can be part of a word.
pub open spec fn has_word_char(s: Seq<char>) -> bool {
    exists|i: int| 0 <= i < s.len() && spec_allowed_in_word(#[trigger] s[i])
}

/// Every word of `events` is a stretch of a text of `len` characters.
pub open spec fn events_within(events: Seq<Event>, len: nat) -> bool {
    forall|i: int|
        0 <= i < events.len() ==> match #[trigger] events[i] {
            Event::Word { start, end } => start <= end <= len,
            Event::Boundary => true,
        }
}

/// No word of `events` is empty.
pub open spec fn no_empty_word(events: Seq<Event>) -> bool {
    forall|i: int|
        0 <= i < events.len() ==> match #[trigger] events[i] {
            Event::Word { start, end } => start < end,
            Event::Boundary => true,
        }
}

/// A word that runs from `a` to `q` without a separator or a boundary in
/// between, and stops at `q`, ends at `q`.
pub proof fn lemma_word_end(s: Seq<char>, a: int, q: int, digits: bool)
    requires
        0 <= a < q <= s.len(),
        forall|k: int| a < k < q ==> spec_role(#[trigger] s[k]) != Role::Separator,
        forall|k: int| a < k < q ==> !#[trigger] boundary_at(s, k, digits),
        q == s.len() || spec_role(s[q]) == Role::Separator || boundary_at(s, q, digits),
    ensures
        word_end(s, a, digits) == q,
    decreases q - a,
{
    if a + 1 < q {
        assert(spec_role(s[a + 1]) != Role::Separator);
        assert(!boundary_at(s, a + 1, digits));
        lemma_word_end(s, a + 1, q, digits);
    }
}

/// Where no word begins from `a` up to `q`, the words that begin before
/// `q` are those that begin before `a`.
proof fn lemma_words_before_skip(s: Seq<char>, a: int, q: int, digits: bool)
    requires
        0 <= a <= q,
        forall|k: int| a <= k < q ==> !#[trigger] word_start(s, k, digits),
    ensures
        words_before(s, q, digits) == words_before(s, a, digits),
    decreases q - a,
{
    if a < q {
        assert(!word_start(s, q - 1, digits));
        lemma_words_before_skip(s, a, q - 1, digits);
    }
}

/// The word that begins at `a` and runs to `q` is the one word that begins
/// from `a` up to `q`.
pub proof fn lemma_words_before_close(s: Seq<char>, a: int, q: int, digits: bool)
    requires
        0 <= a < q <= s.len(),
        word_start(s, a, digits),
        forall|k: int| a < k < q ==> spec_role(#[trigger] s[k]) != Role::Separator,
        forall|k: int| a < k < q ==> !#[trigger] boundary_at(s, k, digits),
        q == s.len() || spec_role(s[q]) == Role::Separator || boundary_at(s, q, digits),
    ensures
        words_before(s, q, digits) == words_before(s, a, digits).push((a, q)),
{
    lemma_word_end(s, a, q, digits);
    assert forall|k: int| a + 1 <= k < q implies !#[trigger] word_start(s, k, digits) by {
        assert(spec_role(s[k - 1]) != Role::Separator) by {
            if k - 1 > a {
                assert(spec_role(s[k - 1]) != Role::Separator);
            }
        }
        assert(!boundary_at(s, k, digits));
    }
    lemma_words_before_skip(s, a + 1, q, digits);
}

/// The events of a list of words hold the words at the even places and
/// boundaries at the odd places, so one boundary less than words.
pub proof fn lemma_events_of(words: Seq<(int, int)>)
    ensures
        events_of(words).len() == if words.len() == 0 {
            0
        } else {
            2 * words.len() - 1
        },
        forall|k: int|
            0 <= k < words.len() ==> #[trigger] events_of(words)[2 * k] == (Event::Word {
                start: words[k].0 as usize,
                end: words[k].1 as usize,
            }),
        forall|k: int| 0 <= k < words.len() - 1 ==> #[trigger] events_of(words)[2 * k + 1] == Event::Boundary,
        word_count(events_of(words)) == words.len(),
        boundary_count(events_of(words)) == if words.len() == 0 {
            0
        } else {
            words.len() - 1
        },
    decreases words.len(),
{
    if words.len() > 1 {
        let head = words.drop_last();
        lemma_events_of(head);
        let events = events_of(words);
        let shorter = events_of(head).push(Event::Boundary);
        assert(events.drop_last() =~= shorter);
        assert(shorter.drop_last() =~= events_of(head));
        assert(word_count(shorter) == word_count(events_of(head)));
        assert(word_count(events) == word_count(shorter) + 1);
        assert(boundary_count(shorter) == boundary_count(events_of(head)) + 1);
        assert(boundary_count(events) == boundary_count(shorter));
        assert forall|k: int| 0 <= k < words.len() implies #[trigger] events[2 * k] == (Event::Word {
            start: words[k].0 as usize,
            end: words[k].1 as usize,
        }) by {
            if k < head.len() {
                assert(events[2 * k] == events_of(head)[2 * k]);
                assert(head[k] == words[k]);
            }
        }
        assert forall|k: int| 0 <= k < words.len() - 1 implies #[trigger] events[2 * k + 1]
            == Event::Boundary by {
            if k < head.len() - 1 {
                assert(events[2 * k + 1] == events_of(head)[2 * k + 1]);
            }
        }
    } else if words.len() == 1 {
        let events = events_of(words);
        assert(events.drop_last() =~= Seq::<Event>::empty());
        assert(word_count(events) == word_count(events.drop_last()) + 1);
        assert(boundary_count(events) == boundary_count(events.drop_last()));
    }
}

/// The word that holds the character at `i` ends after `i` and within the
/// text.
pub proof fn lemma_word_end_within(s: Seq<char>, i: int, digits: bool)
    requires
        0 <= i < s.len(),
    ensures
        i < word_end(s, i, digits) <= s.len(),
    decreases s.len() - i,
{
    if !(i + 1 >= s.len() || spec_role(s[i + 1]) == Role::Separator || boundary_at(
        s,
        i + 1,
        digits,
    )) {
        lemma_word_end_within(s, i + 1, digits);
    }
}

/// Every word is a non-empty stretch of the text.
pub proof fn lemma_words_within(s: Seq<char>, n: int, digits: bool)
    requires
        n <= s.len(),
    ensures
        forall|k: int|
            0 <= k < words_before(s, n, digits).len() ==> 0 <= (#[trigger] words_before(
                s,
                n,
                digits,
            )[k]).0 < words_before(s, n, digits)[k].1 <= s.len(),
    decreases n,
{
    if n > 0 {
        lemma_words_within(s, n - 1, digits);
        let shorter = words_before(s, n - 1, digits);
        let words = words_before(s, n, digits);
        if word_start(s, n - 1, digits) {
            lemma_word_end_within(s, n - 1, digits);
            assert(words == shorter.push((n - 1, word_end(s, n - 1, digits))));
        }
        assert forall|k: int| 0 <= k < words.len() implies 0 <= (#[trigger] words[k]).0
            < words[k].1 <= s.len() by {
            if k < shorter.len() {
                assert(words[k] == shorter[k]);
            }
        }
    }
}

/// A word begins before `n` exactly if some word is listed before `n`.
proof fn lemma_words_before_nonempty(s: Seq<char>, n: int, digits: bool)
    ensures
        words_before(s, n, digits).len() > 0 <==> exists|k: int|
            0 <= k < n && #[trigger] word_start(s, k, digits),
    decreases n,
{
    if n > 0 {
        lemma_words_before_nonempty(s, n - 1, digits);
        if words_before(s, n, digits).len() > 0 {
            if word_start(s, n - 1, digits) {
            } else {
                let k = choose|k: int| 0 <= k < n - 1 && #[trigger] word_start(s, k, digits);
                assert(0 <= k < n && word_start(s, k, digits));
            }
        }
        if exists|k: int| 0 <= k < n && #[trigger] word_start(s, k, digits) {
            let k = choose|k: int| 0 <= k < n && #[trigger] word_start(s, k, digits);
            if k < n - 1 {
                assert(0 <= k < n - 1 && word_start(s, k, digits));
            }
        }
    }
}

/// At or before every character that can be part of a word, a word begins.
proof fn lemma_run_has_start(s: Seq<char>, j: int, digits: bool) -> (k: int)
    requires
        0 <= j < s.len(),
        spec_role(s[j]) != Role::Separator,
    ensures
        0 <= k <= j,
        word_start(s, k, digits),
    decreases j,
{
    if j == 0 || spec_role(s[j - 1]) == Role::Separator {
        j
    } else {
        lemma_run_has_start(s, j - 1, digits)
    }
}

/// A text has a word exactly if one of its characters can be part of a
/// word; and it has one boundary less than it has words.
pub proof fn lemma_boundary_symmetry(s: Seq<char>, digits: bool)
    ensures
        has_word_char(s) ==> word_count(spec_events(s, digits)) == boundary_count(
            spec_events(s, digits),
        ) + 1,
        !has_word_char(s) ==> word_count(spec_events(s, digits)) == 0 && boundary_count(
            spec_events(s, digits),
        ) == 0,
{
    let words = spec_words(s, digits);
    lemma_events_of(words);
    lemma_words_before_nonempty(s, s.len() as int, digits);
    if has_word_char(s) {
        let j = choose|j: int| 0 <= j < s.len() && spec_allowed_in_word(#[trigger] s[j]);
        let k = lemma_run_has_start(s, j, digits);
        assert(0 <= k < s.len() && word_start(s, k, digits));
    } else {
        if words.len() > 0 {
            let k = choose|k: int| 0 <= k < s.len() && #[trigger] word_start(s, k, digits);
            assert(spec_allowed_in_word(s[k]));
        }
    }
}

/// Over a stretch of marks, the nearest character that is no mark stays
/// the same.
proof fn lemma_next_solid_over_mark(s: Seq<char>, i: int)
    requires
        0 <= i < s.len(),
    ensures
        spec_role(s[i]) == Role::Mark ==> next_solid(s, i) == next_solid(s, i + 1),
        spec_role(s[i]) != Role::Mark ==> next_solid(s, i) == i,
        prev_solid(s, i + 1) == if spec_role(s[i]) == Role::Mark {
            prev_solid(s, i)
        } else {
            i
        },
{
}

/// The roles of the ASCII characters: a letter has the role of its case, a
/// digit is plain, and every other character is a separator.
pub proof fn lemma_ascii_role(c: char)
    requires
        c <= '\u{007F}',
    ensures
        spec_role(c) == if 'a' <= c <= 'z' {
            Role::Lower
        } else if 'A' <= c <= 'Z' {
            Role::Upper
        } else if spec_is_digit(c) {
            Role::Plain
        } else {
            Role::Separator
        },
{
    lemma_ascii(c);
}

/// The role of a character.
pub fn role_of(c: char) -> (role: Role)
    ensures
        role == spec_role(c),
{
    if !allowed_in_word(c) {
        Role::Separator
    } else {
        match category_of(c) {
            Some(CasedLetterKind::Lowercase) => Role::Lower,
            Some(CasedLetterKind::Uppercase) => Role::Upper,
            Some(CasedLetterKind::Titlecase) => if is_non_greek_titlecase(c) {
                Role::Digraph
            } else {
                Role::Upper
            },
            None => if is_nonspacing_mark(c) {
                Role::Mark
            } else {
                Role::Plain
            },
        }
    }
}

/// Whether a character is an ASCII decimal digit.
pub fn is_digit(c: char) -> (digit: bool)
    ensures
        digit == spec_is_digit(c),
{
    '0' <= c && c <= '9'
}

/// Appends the word `start..end` to the events, after a boundary if it is
/// not the first word.
fn emit(
    events: &mut Vec<Event>,
    start: usize,
    end: usize,
    Ghost(words): Ghost<Seq<(int, int)>>,
    Ghost(len): Ghost<nat>,
)
    requires
        old(events)@ == events_of(words),
        events_within(old(events)@, len),
        no_empty_word(old(events)@),
        start < end <= len,
    ensures
        final(events)@ == events_of(words.push((start as int, end as int))),
        events_within(final(events)@, len),
        no_empty_word(final(events)@),
{
    let ghost longer = words.push((start as int, end as int));
    assert(longer.drop_last() =~= words);
    assert(longer.last() == (start as int, end as int));
    if events.len() > 0 {
        assert(words.len() > 0);
        events.push(Event::Boundary);
    } else {
        assert(words.len() == 0) by {
            if words.len() > 0 {
                assert(events_of(words).len() > 0);
            }
        }
    }
    events.push(Event::Word { start, end });
    assert(events@ =~= events_of(longer));
}

/// What the scan knows when it has read the characters before `i`.
spec fn scan_inv(
    s: Seq<char>,
    digits: bool,
    i: int,
    in_word: bool,
    start: int,
    prev_lower: bool,
    pending: Option<usize>,
    prev_digit: Option<bool>,
    events: Seq<Event>,
) -> bool {
    &&& 0 <= i <= s.len()
    &&& events_within(events, s.len())
    &&& no_empty_word(events)
    &&& !in_word ==> {
        &&& events == events_of(words_before(s, i, digits))
        &&& (i == 0 || spec_role(s[i - 1]) == Role::Separator)
    }
    &&& in_word ==> {
        &&& 0 <= start < i
        &&& events == events_of(words_before(s, start, digits))
        &&& word_start(s, start, digits)
        &&& forall|k: int| start < k < i ==> spec_role(#[trigger] s[k]) != Role::Separator
        &&& forall|k: int|
            start < k < i && pending != Some(k as usize) ==> !#[trigger] boundary_at(s, k, digits)
        &&& prev_lower == follows_lower(s, i)
        &&& prev_digit == digit_before(s, i)
        &&& match pending {
            Some(p) => {
                &&& start <= p < i
                &&& prev_solid(s, i) == p
                &&& next_solid(s, p + 1) == next_solid(s, i)
                &&& (spec_role(s[p as int]) == Role::Upper || spec_role(s[p as int])
                    == Role::Digraph)
                &&& p != start ==> {
                    &&& spec_role(s[p as int]) == Role::Upper
                    &&& !follows_lower(s, p as int)
                    &&& !(digits && digit_change(s, p as int))
                }
            },
            None => {
                let p = prev_solid(s, i);
                p < 0 || (spec_role(s[p]) != Role::Upper && spec_role(s[p]) != Role::Digraph)
            },
        }
    }
}

/// Segments a text: its words, in order, with a boundary between each two.
///
/// With `digits` set, a run of digits is a word of its own.
pub fn segment(s: &[char], digits: bool) -> (events: Vec<Event>)
    ensures
        events@ == spec_events(s@, digits),
        events_within(events@, s@.len()),
        no_empty_word(events@),
        has_word_char(s@) ==> word_count(events@) == boundary_count(events@) + 1,
        !has_word_char(s@) ==> word_count(events@) == 0 && boundary_count(events@) == 0,
{
    proof {
        lemma_boundary_symmetry(s@, digits);
    }
    let mut events: Vec<Event> = Vec::new();
    let mut in_word = false;
    let mut start: usize = 0;
    // Whether the character before, marks aside, is lowercase or a digraph.
    let mut prev_lower = false;
    // The index of the character before, marks aside, if it is an uppercase
    // or titlecase letter: whether a word begins there is open until the
    // next character that is no mark has been read.
    let mut pending: Option<usize> = None;
    // Whether the character before, marks aside, is a digit.
    let mut prev_digit: Option<bool> = None;
    let mut i: usize = 0;
    while i < s.len()
        invariant
            scan_inv(s@, digits, i as int, in_word, start as int, prev_lower, pending, prev_digit, events@),
        decreases s.len() - i,
    {
        let c = s[i];
        let role = role_of(c);
        proof {
            lemma_next_solid_over_mark(s@, i as int);
        }
        if role == Role::Separator {
            if in_word {
                proof {
                    lemma_words_before_close(s@, start as int, i as int, digits);
                }
                emit(&mut events, start, i, Ghost(words_before(s@, start as int, digits)), Ghost(s@.len()));
                in_word = false;
            }
            assert(!word_start(s@, i as int, digits));
        } else {
            if !in_word {
                in_word = true;
                start = i;
                prev_lower = false;
                pending = None;
                prev_digit = None;
            }
            if role != Role::Mark {
                let digit = is_digit(c);
                if role == Role::Lower {
                    if let Some(p) = pending {
                        if p != start {
                            proof {
                                assert(precedes_lower(s@, p as int));
                                assert(boundary_at(s@, p as int, digits));
                                lemma_words_before_close(s@, start as int, p as int, digits);
                            }
                            emit(&mut events, start, p, Ghost(words_before(s@, start as int, digits)), Ghost(s@.len()));
                            start = p;
                        }
                    }
                }
                proof {
                    if let Some(p) = pending {
                        if p != start {
                            assert(!precedes_lower(s@, p as int));
                            assert(!boundary_at(s@, p as int, digits));
                        }
                    }
                }
                let cased_upper = role == Role::Upper || role == Role::Digraph;
                let cut = role == Role::Digraph || (cased_upper && prev_lower) || (digits
                    && match prev_digit {
                    Some(d) => d != digit,
                    None => false,
                });
                if cut && i != start {
                    proof {
                        assert(boundary_at(s@, i as int, digits));
                        lemma_words_before_close(s@, start as int, i as int, digits);
                    }
                    emit(&mut events, start, i, Ghost(words_before(s@, start as int, digits)), Ghost(s@.len()));
                    start = i;
                }
                prev_lower = role == Role::Lower || role == Role::Digraph;
                pending = if cased_upper {
                    Some(i)
                } else {
                    None
                };
                prev_digit = Some(digit);
            }
        }
        i = i + 1;
    }
    if in_word {
        proof {
            if let Some(p) = pending {
                if p != start {
                    assert(!precedes_lower(s@, p as int));
                    assert(!boundary_at(s@, p as int, digits));
                }
            }
            lemma_words_before_close(s@, start as int, s@.len() as int, digits);
        }
        emit(&mut events, start, s.len(), Ghost(words_before(s@, start as int, digits)), Ghost(s@.len()));
    }
    events
}

} // verus!
