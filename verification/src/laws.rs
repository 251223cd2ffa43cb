//! Laws of the segmentation, stated over its specification.

use crate::segment::{
    boundary_at, digit_before, digit_change, events_of, follows_lower, lemma_events_of,
    lemma_word_end_within, lemma_words_before_close, lemma_words_within, next_solid,
    precedes_lower, prev_solid, spec_role, spec_words, word_end, word_start, words_before, Event,
    Role,
};
use crate::render::{lower_all, spec_lowercase};
use crate::segment::{has_word_char, lemma_ascii_role, lemma_boundary_symmetry, spec_events, word_count};
use crate::snake::spec_snake;
use crate::tables::{lemma_ascii, spec_allowed_in_word};
use crate::transform::{
    has_word, spec_format, spec_render, spec_transform, Pattern, WordCase,
};
use vstd::prelude::*;

verus! {

/// `t` is `s` with the mark `m` put in at `p`, behind a character that is
/// part of a word.
pub open spec fn mark_put_in(s: Seq<char>, p: int, m: char, t: Seq<char>) -> bool {
    &&& 0 < p <= s.len()
    &&& spec_role(s[p - 1]) != Role::Separator
    &&& spec_role(m) == Role::Mark
    &&& t == s.insert(p, m)
}

/// Where the place `k` of a text is found after a character was put in at
/// `p`.
pub open spec fn moved(p: int, k: int) -> int {
    if k < p {
        k
    } else {
        k + 1
    }
}

/// A word with its start and its end moved.
pub open spec fn moved_word(p: int, word: (int, int)) -> (int, int) {
    (moved(p, word.0), moved(p, word.1))
}

proof fn lemma_put_in_index(s: Seq<char>, p: int, m: char, t: Seq<char>)
    requires
        mark_put_in(s, p, m, t),
    ensures
        t.len() == s.len() + 1,
        t[p] == m,
        forall|k: int| 0 <= k < s.len() ==> #[trigger] t[moved(p, k)] == s[k],
        forall|k: int| 0 <= k < p ==> #[trigger] t[k] == s[k],
        forall|k: int| p < k <= s.len() ==> #[trigger] t[k] == s[k - 1],
{
    s.insert_ensures(p, m);
    assert forall|k: int| p < k <= s.len() implies #[trigger] t[k] == s[k - 1] by {
        assert(t[(k - 1) + 1] == s[k - 1]);
    }
    assert forall|k: int| 0 <= k < s.len() implies #[trigger] t[moved(p, k)] == s[k] by {
        if k >= p {
            assert(t[k + 1] == s[k]);
        }
    }
}

proof fn lemma_prev_solid_before(s: Seq<char>, p: int, m: char, t: Seq<char>, j: int)
    requires
        mark_put_in(s, p, m, t),
        0 <= j <= p,
    ensures
        prev_solid(t, j) == prev_solid(s, j),
    decreases j,
{
    lemma_put_in_index(s, p, m, t);
    if j > 0 {
        assert(t[j - 1] == s[j - 1]);
        if spec_role(s[j - 1]) == Role::Mark {
            lemma_prev_solid_before(s, p, m, t, j - 1);
        }
    }
}

proof fn lemma_prev_solid_bound(s: Seq<char>, j: int)
    ensures
        -1 <= prev_solid(s, j),
        prev_solid(s, j) < j || j < 0,
        j <= 0 ==> prev_solid(s, j) == -1,
    decreases j,
{
    if j > 0 && spec_role(s[j - 1]) == Role::Mark {
        lemma_prev_solid_bound(s, j - 1);
    }
}

proof fn lemma_prev_solid_moved(s: Seq<char>, p: int, m: char, t: Seq<char>, k: int)
    requires
        mark_put_in(s, p, m, t),
        0 <= k <= s.len(),
    ensures
        prev_solid(t, moved(p, k)) == if prev_solid(s, k) < 0 {
            -1
        } else {
            moved(p, prev_solid(s, k))
        },
    decreases k,
{
    lemma_put_in_index(s, p, m, t);
    lemma_prev_solid_bound(s, k);
    if k < p {
        lemma_prev_solid_before(s, p, m, t, k);
    } else if k == p {
        assert(prev_solid(t, p + 1) == prev_solid(t, p));
        lemma_prev_solid_before(s, p, m, t, p);
    } else {
        assert(t[k] == s[k - 1]);
        if spec_role(s[k - 1]) == Role::Mark {
            lemma_prev_solid_moved(s, p, m, t, k - 1);
            assert(moved(p, k - 1) == k);
        }
    }
}

proof fn lemma_next_solid_bound(s: Seq<char>, j: int)
    requires
        0 <= j,
    ensures
        j <= next_solid(s, j) || s.len() <= j,
        next_solid(s, j) <= s.len(),
        j >= s.len() ==> next_solid(s, j) == s.len(),
    decreases s.len() - j,
{
    if j < s.len() && spec_role(s[j]) == Role::Mark {
        lemma_next_solid_bound(s, j + 1);
    }
}

proof fn lemma_next_solid_after(s: Seq<char>, p: int, m: char, t: Seq<char>, k: int)
    requires
        mark_put_in(s, p, m, t),
        p <= k,
    ensures
        next_solid(t, k + 1) == next_solid(s, k) + 1,
    decreases s.len() - k,
{
    lemma_put_in_index(s, p, m, t);
    if k < s.len() {
        assert(t[k + 1] == s[k]);
        if spec_role(s[k]) == Role::Mark {
            lemma_next_solid_after(s, p, m, t, k + 1);
        }
    }
}

proof fn lemma_next_solid_moved(s: Seq<char>, p: int, m: char, t: Seq<char>, k: int)
    requires
        mark_put_in(s, p, m, t),
        0 <= k <= s.len(),
    ensures
        next_solid(t, moved(p, k)) == moved(p, next_solid(s, k)),
        k <= p ==> next_solid(t, k) == moved(p, next_solid(s, k)),
    decreases p - k,
{
    lemma_put_in_index(s, p, m, t);
    lemma_next_solid_bound(s, k);
    if k >= p {
        lemma_next_solid_after(s, p, m, t, k);
        if k == p {
            assert(next_solid(t, p) == next_solid(t, p + 1));
        }
    } else {
        assert(t[k] == s[k]);
        if spec_role(s[k]) == Role::Mark {
            lemma_next_solid_moved(s, p, m, t, k + 1);
            if k + 1 == p {
                assert(next_solid(t, k + 1) == moved(p, next_solid(s, k + 1)));
            }
        }
    }
}

/// A mark behind a character of a word moves no boundary, and none lies
/// before the mark itself.
pub proof fn lemma_mark_keeps_boundary(
    s: Seq<char>,
    p: int,
    m: char,
    t: Seq<char>,
    k: int,
    digits: bool,
)
    requires
        mark_put_in(s, p, m, t),
        0 <= k < s.len(),
    ensures
        boundary_at(t, moved(p, k), digits) == boundary_at(s, k, digits),
        !boundary_at(t, p, digits),
        word_start(t, moved(p, k), digits) == word_start(s, k, digits),
        !word_start(t, p, digits),
{
    lemma_put_in_index(s, p, m, t);
    let k2 = moved(p, k);
    assert(t[k2] == s[k]);
    assert(t[p - 1] == s[p - 1]);
    if k > 0 {
        assert(spec_role(t[k2 - 1]) != Role::Separator <==> spec_role(s[k - 1])
            != Role::Separator) by {
            if k < p {
                assert(t[k - 1] == s[k - 1]);
            } else if k == p {
            } else {
                assert(t[k] == s[k - 1]);
            }
        }
        lemma_prev_solid_moved(s, p, m, t, k);
        lemma_prev_solid_bound(s, k);
        let q = prev_solid(s, k);
        if q >= 0 {
            assert(t[moved(p, q)] == s[q]);
        }
        assert(follows_lower(t, k2) == follows_lower(s, k));
        assert(digit_before(t, k2) == digit_before(s, k));
        assert(digit_change(t, k2) == digit_change(s, k));
        lemma_next_solid_bound(s, k + 1);
        let n = next_solid(s, k + 1);
        if k + 1 <= p {
            lemma_next_solid_moved(s, p, m, t, k + 1);
            assert(k2 + 1 == k + 1);
            assert(next_solid(t, k2 + 1) == moved(p, n));
        } else {
            lemma_next_solid_after(s, p, m, t, k + 1);
            assert(k2 + 1 == k + 2);
            assert(next_solid(t, k2 + 1) == n + 1);
        }
        if n < s.len() {
            assert(t[moved(p, n)] == s[n]);
        }
        assert(precedes_lower(t, k2) == precedes_lower(s, k));
    }
}

proof fn lemma_word_end_moved(s: Seq<char>, p: int, m: char, t: Seq<char>, i: int, digits: bool)
    requires
        mark_put_in(s, p, m, t),
        0 <= i < s.len(),
    ensures
        word_end(t, moved(p, i), digits) == moved(p, word_end(s, i, digits)),
        i == p - 1 ==> word_end(t, p, digits) == moved(p, word_end(s, i, digits)),
    decreases s.len() - i,
{
    lemma_put_in_index(s, p, m, t);
    let stop = i + 1 >= s.len() || spec_role(s[i + 1]) == Role::Separator || boundary_at(
        s,
        i + 1,
        digits,
    );
    if i + 1 < s.len() {
        lemma_mark_keeps_boundary(s, p, m, t, i + 1, digits);
        assert(t[moved(p, i + 1)] == s[i + 1]);
        if !stop {
            lemma_word_end_moved(s, p, m, t, i + 1, digits);
        }
    } else {
        lemma_mark_keeps_boundary(s, p, m, t, i, digits);
    }
    if i == p - 1 {
        // The mark stands right behind `i`: the word runs on over it.
        assert(moved(p, i) == p - 1);
        assert(spec_role(t[p]) == Role::Mark);
        assert(!boundary_at(t, p, digits));
        assert(word_end(t, p - 1, digits) == word_end(t, p, digits));
        if i + 1 < s.len() {
            assert(moved(p, i + 1) == p + 1);
        }
    } else if i < p - 1 {
        assert(moved(p, i) == i && moved(p, i + 1) == i + 1);
    } else {
        assert(moved(p, i) == i + 1 && moved(p, i + 1) == i + 2);
    }
}

proof fn lemma_words_before_moved(
    s: Seq<char>,
    p: int,
    m: char,
    t: Seq<char>,
    n: int,
    digits: bool,
)
    requires
        mark_put_in(s, p, m, t),
        0 <= n <= s.len(),
    ensures
        words_before(t, moved(p, n), digits) == words_before(s, n, digits).map_values(
            |word: (int, int)| moved_word(p, word),
        ),
        n == p ==> words_before(t, p, digits) == words_before(s, n, digits).map_values(
            |word: (int, int)| moved_word(p, word),
        ),
    decreases n,
{
    let f = |word: (int, int)| moved_word(p, word);
    if n <= 0 {
        assert(words_before(s, n, digits).map_values(f) =~= Seq::<(int, int)>::empty());
    } else {
        lemma_words_before_moved(s, p, m, t, n - 1, digits);
        lemma_mark_keeps_boundary(s, p, m, t, n - 1, digits);
        lemma_word_end_moved(s, p, m, t, n - 1, digits);
        let shorter = words_before(s, n - 1, digits);
        let last = (n - 1, word_end(s, n - 1, digits));
        // In `t`, the words that begin before the place of `n - 1`.
        let before = words_before(t, moved(p, n - 1), digits);
        assert(before == shorter.map_values(f));
        // In `t`, the words that begin up to the place of `n - 1`.
        let upto = words_before(t, moved(p, n - 1) + 1, digits);
        if word_start(s, n - 1, digits) {
            assert(upto == before.push(moved_word(p, last)));
            assert(shorter.push(last).map_values(f) =~= shorter.map_values(f).push(f(last)));
        } else {
            assert(upto == before);
        }
        assert(upto == words_before(s, n, digits).map_values(f));
        if n == p {
            assert(moved(p, n - 1) + 1 == p);
            assert(moved(p, n) == p + 1);
            assert(words_before(t, p + 1, digits) == words_before(t, p, digits));
        } else {
            assert(moved(p, n - 1) + 1 == moved(p, n));
        }
    }
}

/// Mark transparency: a nonspacing mark that is put in behind a character
/// of a word changes no word but by its own place. The words of the text
/// with the mark are the words of the text without it, each start and end
/// moved by one where it lies behind the mark.
pub proof fn lemma_mark_transparency(s: Seq<char>, p: int, m: char, digits: bool)
    requires
        0 < p <= s.len(),
        spec_role(s[p - 1]) != Role::Separator,
        spec_role(m) == Role::Mark,
    ensures
        spec_words(s.insert(p, m), digits) == spec_words(s, digits).map_values(
            |word: (int, int)| moved_word(p, word),
        ),
        forall|k: int|
            0 <= k < s.len() ==> #[trigger] boundary_at(s.insert(p, m), moved(p, k), digits)
                == boundary_at(s, k, digits),
        !boundary_at(s.insert(p, m), p, digits),
{
    let t = s.insert(p, m);
    lemma_put_in_index(s, p, m, t);
    lemma_words_before_moved(s, p, m, t, s.len() as int, digits);
    assert(moved(p, s.len() as int) == t.len());
    assert forall|k: int| 0 <= k < s.len() implies #[trigger] boundary_at(
        t,
        moved(p, k),
        digits,
    ) == boundary_at(s, k, digits) by {
        lemma_mark_keeps_boundary(s, p, m, t, k, digits);
    }
    lemma_mark_keeps_boundary(s, p, m, t, 0, digits);
}

/// The text after the marks `puts` have been put in one after another, each
/// at its place in the text as it stands by then.
pub open spec fn with_marks(s: Seq<char>, puts: Seq<(int, char)>) -> Seq<char>
    decreases puts.len(),
{
    if puts.len() == 0 {
        s
    } else {
        with_marks(s, puts.drop_last()).insert(puts.last().0, puts.last().1)
    }
}

/// Every one of `puts` is a mark, and is put in behind a character that is
/// part of a word.
pub open spec fn marks_fit(s: Seq<char>, puts: Seq<(int, char)>) -> bool
    decreases puts.len(),
{
    puts.len() == 0 || {
        let t = with_marks(s, puts.drop_last());
        &&& marks_fit(s, puts.drop_last())
        &&& 0 < puts.last().0 <= t.len()
        &&& spec_role(t[puts.last().0 - 1]) != Role::Separator
        &&& spec_role(puts.last().1) == Role::Mark
    }
}

/// Where the place `k` of a text is found after all of `puts` have been
/// put in.
pub open spec fn moved_by(puts: Seq<(int, char)>, k: int) -> int
    decreases puts.len(),
{
    if puts.len() == 0 {
        k
    } else {
        moved(puts.last().0, moved_by(puts.drop_last(), k))
    }
}

/// Mark transparency, for any number of marks: nonspacing marks that are
/// put in behind characters of words change no word but by their own
/// places. The text with the marks has as many words as the text without
/// them, and each is the word of the text without them, its start and its
/// end moved to where the marks have pushed them.
pub proof fn lemma_marks_transparent(s: Seq<char>, puts: Seq<(int, char)>, digits: bool)
    requires
        marks_fit(s, puts),
    ensures
        spec_words(with_marks(s, puts), digits) == spec_words(s, digits).map_values(
            |word: (int, int)| (moved_by(puts, word.0), moved_by(puts, word.1)),
        ),
        spec_words(with_marks(s, puts), digits).len() == spec_words(s, digits).len(),
        events_of(spec_words(with_marks(s, puts), digits)).len() == events_of(
            spec_words(s, digits),
        ).len(),
    decreases puts.len(),
{
    let all = |word: (int, int)| (moved_by(puts, word.0), moved_by(puts, word.1));
    if puts.len() == 0 {
        assert(spec_words(s, digits).map_values(all) =~= spec_words(s, digits));
    } else {
        let before = puts.drop_last();
        let t = with_marks(s, before);
        let p = puts.last().0;
        let m = puts.last().1;
        lemma_marks_transparent(s, before, digits);
        lemma_mark_transparency(t, p, m, digits);
        let earlier = |word: (int, int)| (moved_by(before, word.0), moved_by(before, word.1));
        let last = |word: (int, int)| moved_word(p, word);
        assert(spec_words(s, digits).map_values(earlier).map_values(last) =~= spec_words(
            s,
            digits,
        ).map_values(all));
    }
    lemma_events_of(spec_words(s, digits));
    lemma_events_of(spec_words(with_marks(s, puts), digits));
}

/// Every word that is listed begins where a word begins and ends where
/// that word ends.
proof fn lemma_words_are_words(s: Seq<char>, n: int, digits: bool, k: int)
    requires
        n <= s.len(),
        0 <= k < words_before(s, n, digits).len(),
    ensures
        word_start(s, words_before(s, n, digits)[k].0, digits),
        words_before(s, n, digits)[k].1 == word_end(s, words_before(s, n, digits)[k].0, digits),
    decreases n,
{
    if n > 0 {
        let shorter = words_before(s, n - 1, digits);
        if k < shorter.len() {
            lemma_words_are_words(s, n - 1, digits, k);
        }
    }
}

/// Within a word there is neither a separator nor a boundary.
proof fn lemma_word_is_whole(s: Seq<char>, a: int, digits: bool)
    requires
        0 <= a < s.len(),
    ensures
        forall|j: int| a < j < word_end(s, a, digits) ==> spec_role(#[trigger] s[j]) != Role::Separator,
        forall|j: int| a < j < word_end(s, a, digits) ==> !#[trigger] boundary_at(s, j, digits),
    decreases s.len() - a,
{
    if !(a + 1 >= s.len() || spec_role(s[a + 1]) == Role::Separator || boundary_at(
        s,
        a + 1,
        digits,
    )) {
        lemma_word_is_whole(s, a + 1, digits);
    }
}

proof fn lemma_prev_solid_within(s: Seq<char>, a: int, b: int, k: int)
    requires
        0 <= a <= b <= s.len(),
        0 <= k <= b - a,
    ensures
        prev_solid(s.subrange(a, b), k) < k,
        prev_solid(s.subrange(a, b), k) >= 0 ==> prev_solid(s, a + k) == a + prev_solid(
            s.subrange(a, b),
            k,
        ),
    decreases k,
{
    let w = s.subrange(a, b);
    if k > 0 {
        assert(w[k - 1] == s[a + k - 1]);
        if spec_role(w[k - 1]) == Role::Mark {
            lemma_prev_solid_within(s, a, b, k - 1);
        }
    }
}

proof fn lemma_next_solid_within(s: Seq<char>, a: int, b: int, k: int)
    requires
        0 <= a <= b <= s.len(),
        0 <= k <= b - a,
    ensures
        k <= next_solid(s.subrange(a, b), k) <= b - a,
        next_solid(s.subrange(a, b), k) < b - a ==> next_solid(s, a + k) == a + next_solid(
            s.subrange(a, b),
            k,
        ),
    decreases b - a - k,
{
    let w = s.subrange(a, b);
    if k < w.len() {
        assert(w[k] == s[a + k]);
        if spec_role(w[k]) == Role::Mark {
            lemma_next_solid_within(s, a, b, k + 1);
        }
    }
}

/// A boundary within a stretch of a text, taken alone, is a boundary of the
/// text.
pub proof fn lemma_boundary_within(s: Seq<char>, a: int, b: int, k: int, digits: bool)
    requires
        0 <= a <= b <= s.len(),
        boundary_at(s.subrange(a, b), k, digits),
    ensures
        boundary_at(s, a + k, digits),
{
    let w = s.subrange(a, b);
    assert(w[k] == s[a + k]);
    assert(w[k - 1] == s[a + k - 1]);
    lemma_prev_solid_within(s, a, b, k);
    lemma_next_solid_within(s, a, b, k + 1);
    let p = prev_solid(w, k);
    if p >= 0 {
        assert(w[p] == s[a + p]);
    }
    let n = next_solid(w, k + 1);
    if n < w.len() {
        assert(w[n] == s[a + n]);
    }
    if spec_role(w[k]) == Role::Upper && follows_lower(w, k) {
        assert(follows_lower(s, a + k));
    }
    if spec_role(w[k]) == Role::Upper && precedes_lower(w, k) {
        assert(precedes_lower(s, a + k));
    }
    if digits && digit_change(w, k) {
        assert(digit_before(w, k) is Some);
        assert(digit_before(s, a + k) == digit_before(w, k));
        assert(digit_change(s, a + k));
    }
}

/// Stability: a word of a text, taken alone, is one word.
pub proof fn lemma_word_stands_alone(s: Seq<char>, digits: bool, k: int)
    requires
        0 <= k < spec_words(s, digits).len(),
    ensures
        spec_words(s.subrange(spec_words(s, digits)[k].0, spec_words(s, digits)[k].1), digits)
            == seq![(0int, spec_words(s, digits)[k].1 - spec_words(s, digits)[k].0)],
{
    let a = spec_words(s, digits)[k].0;
    let b = spec_words(s, digits)[k].1;
    lemma_words_within(s, s.len() as int, digits);
    lemma_words_are_words(s, s.len() as int, digits, k);
    lemma_word_is_whole(s, a, digits);
    let w = s.subrange(a, b);
    assert(w[0] == s[a]);
    assert forall|j: int| 0 < j < w.len() implies spec_role(#[trigger] w[j]) != Role::Separator by {
        assert(w[j] == s[a + j]);
    }
    assert forall|j: int| 0 < j < w.len() implies !#[trigger] boundary_at(w, j, digits) by {
        if boundary_at(w, j, digits) {
            lemma_boundary_within(s, a, b, j, digits);
        }
    }
    lemma_words_before_close(w, 0, w.len() as int, digits);
    assert(words_before(w, 0, digits).push((0int, w.len() as int)) =~= seq![(0int, b - a)]);
}

/// The word `k` of `words` stands in `s` as `pattern` writes it.
pub open spec fn word_in_case(s: Seq<char>, words: Seq<(int, int)>, k: int, pattern: Pattern) -> bool {
    let word = s.subrange(words[k].0, words[k].1);
    spec_render(
        word,
        if k == 0 {
            pattern.first
        } else {
            pattern.rest
        },
    ) == word
}

/// Between the words `k - 1` and `k` of `words` stands in `s` what
/// `pattern` writes between two words, and nothing else.
pub open spec fn joined_in_case(s: Seq<char>, words: Seq<(int, int)>, k: int, pattern: Pattern) -> bool {
    match pattern.separator {
        Some(c) => words[k].0 == words[k - 1].1 + 1 && s[words[k - 1].1] == c,
        None => words[k].0 == words[k - 1].1,
    }
}

/// `s` is written in the case that `pattern` describes: it begins with its
/// first word and ends with its last, every word stands as `pattern` writes
/// it, and between two words stands the separator of `pattern` and nothing
/// else.
pub open spec fn in_case(s: Seq<char>, digits: bool, pattern: Pattern) -> bool {
    let words = spec_words(s, digits);
    &&& words.len() == 0 ==> s.len() == 0
    &&& words.len() > 0 ==> words[0].0 == 0 && words.last().1 == s.len()
    &&& forall|k: int| 0 <= k < words.len() ==> word_in_case(s, words, k, pattern)
    &&& forall|k: int| 0 < k < words.len() ==> joined_in_case(s, words, k, pattern)
}

proof fn lemma_format_in_case(s: Seq<char>, words: Seq<(int, int)>, pattern: Pattern)
    requires
        s.len() <= usize::MAX,
        words.len() > 0,
        words[0].0 == 0,
        forall|k: int| 0 <= k < words.len() ==> 0 <= (#[trigger] words[k]).0 < words[k].1 <= s.len(),
        forall|k: int| 0 <= k < words.len() ==> word_in_case(s, words, k, pattern),
        forall|k: int| 0 < k < words.len() ==> joined_in_case(s, words, k, pattern),
    ensures
        spec_format(s, events_of(words), pattern) == s.subrange(0, words.last().1),
    decreases words.len(),
{
    let events = events_of(words);
    let last = words.last();
    let word = Event::Word { start: last.0 as usize, end: last.1 as usize };
    assert(0 <= last.0 < last.1 <= s.len());
    assert(word_in_case(s, words, words.len() - 1, pattern));
    if words.len() == 1 {
        assert(events.drop_last() =~= Seq::<Event>::empty());
        assert(!has_word(events.drop_last()));
        assert(spec_format(s, events.drop_last(), pattern) =~= Seq::<char>::empty());
        assert(spec_format(s, events, pattern) =~= s.subrange(0, last.1));
    } else {
        let head = words.drop_last();
        assert forall|k: int| 0 <= k < head.len() implies word_in_case(s, head, k, pattern) by {
            assert(word_in_case(s, words, k, pattern));
        }
        assert forall|k: int| 0 < k < head.len() implies joined_in_case(s, head, k, pattern) by {
            assert(joined_in_case(s, words, k, pattern));
        }
        assert forall|k: int| 0 <= k < head.len() implies 0 <= (#[trigger] head[k]).0 < head[k].1
            <= s.len() by {
            assert(head[k] == words[k]);
        }
        lemma_format_in_case(s, head, pattern);
        lemma_events_of(head);
        let with_boundary = events_of(head).push(Event::Boundary);
        assert(events.drop_last() =~= with_boundary);
        assert(with_boundary.drop_last() =~= events_of(head));
        assert(has_word(with_boundary)) by {
            assert(events_of(head)[2 * 0int] is Word);
            assert(with_boundary[0] is Word);
        }
        assert(joined_in_case(s, words, words.len() - 1, pattern));
        let upto = s.subrange(0, head.last().1);
        assert(head.last() == words[words.len() - 2]);
        assert(0 <= head.last().0 < head.last().1 <= s.len());
        assert(spec_format(s, with_boundary, pattern) =~= s.subrange(0, last.0)) by {
            match pattern.separator {
                Some(c) => {
                    assert(upto.push(c) =~= s.subrange(0, last.0));
                },
                None => {},
            }
        }
        assert(s.subrange(0, last.0) + s.subrange(last.0, last.1) =~= s.subrange(0, last.1));
    }
}

/// Idempotence: a text that is written in a case already is converted to
/// that case as itself.
pub proof fn lemma_in_case_unchanged(s: Seq<char>, digits: bool, pattern: Pattern)
    requires
        s.len() <= usize::MAX,
        in_case(s, digits, pattern),
    ensures
        spec_transform(s, digits, pattern) == s,
{
    let words = spec_words(s, digits);
    if words.len() == 0 {
        assert(spec_transform(s, digits, pattern) =~= s);
    } else {
        lemma_words_within(s, s.len() as int, digits);
        lemma_format_in_case(s, words, pattern);
        assert(s.subrange(0, s.len() as int) =~= s);
    }
}

/// `c` is an ASCII small letter or an ASCII digit.
pub open spec fn is_small(c: char) -> bool {
    'a' <= c <= 'z' || '0' <= c <= '9'
}

/// `t` is made of ASCII small letters, ASCII digits and underscores, and
/// no underscore stands at its start, at its end or behind another.
pub open spec fn snake_shaped(t: Seq<char>) -> bool {
    &&& forall|i: int| 0 <= i < t.len() ==> is_small(#[trigger] t[i]) || t[i] == '_'
    &&& t.len() > 0 ==> t[0] != '_' && t[t.len() - 1] != '_'
    &&& forall|i: int| 0 < i < t.len() ==> !(#[trigger] t[i] == '_' && t[i - 1] == '_')
}

/// Every character of `s` is an ASCII character.
pub open spec fn is_ascii_text(s: Seq<char>) -> bool {
    forall|i: int| 0 <= i < s.len() ==> #[trigger] s[i] <= '\u{007F}'
}

/// snake_case: every word in lowercase, and an underscore between two
/// words.
pub open spec fn snake() -> Pattern {
    Pattern { first: WordCase::Lower, rest: WordCase::Lower, separator: Some('_') }
}

/// A word of small letters and digits is its own lowercase form.
proof fn lemma_small_unchanged(x: Seq<char>)
    requires
        forall|i: int| 0 <= i < x.len() ==> is_small(#[trigger] x[i]),
    ensures
        lower_all(x) == x,
        spec_lowercase(x) == x,
    decreases x.len(),
{
    if x.len() > 0 {
        let head = x.drop_last();
        assert forall|i: int| 0 <= i < head.len() implies is_small(#[trigger] head[i]) by {
            assert(head[i] == x[i]);
        }
        lemma_small_unchanged(head);
        assert(is_small(x[x.len() - 1]));
        assert(lower_all(x) =~= x);
    } else {
        assert(lower_all(x) =~= x);
    }
}

/// The lowercase form of a word of ASCII letters and digits is as long as
/// the word and made of small letters and digits.
proof fn lemma_lower_is_small(x: Seq<char>)
    requires
        forall|i: int|
            0 <= i < x.len() ==> (#[trigger] x[i]) <= '\u{007F}' && spec_role(x[i])
                != Role::Separator,
    ensures
        lower_all(x).len() == x.len(),
        spec_lowercase(x) == lower_all(x),
        forall|i: int| 0 <= i < x.len() ==> is_small(#[trigger] lower_all(x)[i]),
    decreases x.len(),
{
    if x.len() > 0 {
        let head = x.drop_last();
        assert forall|i: int| 0 <= i < head.len() implies (#[trigger] head[i]) <= '\u{007F}'
            && spec_role(head[i]) != Role::Separator by {
            assert(head[i] == x[i]);
        }
        lemma_lower_is_small(head);
        let c = x[x.len() - 1];
        lemma_ascii_role(c);
        assert forall|i: int| 0 <= i < x.len() implies is_small(#[trigger] lower_all(x)[i]) by {
            if i < head.len() {
                assert(lower_all(x)[i] == lower_all(head)[i]);
            }
        }
    }
}

/// In a text of snake shape an underscore is a separator and nothing else
/// is, and no boundary lies within a run.
proof fn lemma_snake_roles(t: Seq<char>)
    requires
        snake_shaped(t),
    ensures
        forall|i: int|
            0 <= i < t.len() ==> (spec_role(#[trigger] t[i]) == Role::Separator <==> t[i] == '_'),
        forall|i: int| 0 <= i < t.len() ==> !#[trigger] boundary_at(t, i, false),
{
    assert forall|i: int| 0 <= i < t.len() implies (spec_role(#[trigger] t[i]) == Role::Separator
        <==> t[i] == '_') && !boundary_at(t, i, false) by {
        lemma_ascii_role(t[i]);
        assert(is_small(t[i]) || t[i] == '_');
    }
}

/// Where a word ends, the text ends, a separator stands or a boundary
/// lies.
proof fn lemma_word_end_stops(s: Seq<char>, a: int, digits: bool)
    requires
        0 <= a < s.len(),
    ensures
        word_end(s, a, digits) == s.len() || spec_role(s[word_end(s, a, digits)])
            == Role::Separator || boundary_at(s, word_end(s, a, digits), digits),
    decreases s.len() - a,
{
    if !(a + 1 >= s.len() || spec_role(s[a + 1]) == Role::Separator || boundary_at(
        s,
        a + 1,
        digits,
    )) {
        lemma_word_end_stops(s, a + 1, digits);
    }
}

/// What the words of a text of snake shape are, as far as they begin
/// before `n`: each runs from behind an underscore, or from the start, to
/// the next underscore, or to the end; and none is left out.
proof fn lemma_snake_words(t: Seq<char>, n: int)
    requires
        snake_shaped(t),
        0 <= n <= t.len(),
    ensures
        forall|k: int|
            0 <= k < words_before(t, n, false).len() ==> {
                let word = #[trigger] words_before(t, n, false)[k];
                &&& 0 <= word.0 < word.1 <= t.len()
                &&& (word.1 == t.len() || t[word.1] == '_')
                &&& forall|j: int| word.0 <= j < word.1 ==> t[j] != '_'
            },
        n > 0 ==> words_before(t, n, false).len() > 0 && words_before(t, n, false)[0].0 == 0,
        forall|k: int|
            0 < k < words_before(t, n, false).len() ==> (#[trigger] words_before(t, n, false)[k]).0
                == words_before(t, n, false)[k - 1].1 + 1,
        words_before(t, n, false).len() > 0 ==> words_before(t, n, false).last().0 < n
            && forall|i: int|
            words_before(t, n, false).last().0 < i < n ==> !word_start(t, i, false),
    decreases n,
{
    if n > 0 {
        lemma_snake_words(t, n - 1);
        lemma_snake_roles(t);
        let old_words = words_before(t, n - 1, false);
        let words = words_before(t, n, false);
        let a = n - 1;
        if word_start(t, a, false) {
            let e = word_end(t, a, false);
            lemma_word_end_within(t, a, false);
            lemma_word_end_stops(t, a, false);
            lemma_word_is_whole(t, a, false);
            assert(words == old_words.push((a, e)));
            assert(t[a] != '_');
            assert(e == t.len() || t[e] == '_');
            assert forall|j: int| a <= j < e implies t[j] != '_' by {
                if a < j {
                    assert(spec_role(t[j]) != Role::Separator);
                }
            }
            if old_words.len() > 0 {
                let a0 = old_words.last().0;
                let e0 = old_words.last().1;
                assert(old_words[old_words.len() - 1] == old_words.last());
                assert(a > 0);
                assert(!boundary_at(t, a, false));
                assert(t[a - 1] == '_');
                assert(e0 <= a - 1) by {
                    if e0 > a - 1 {
                        assert(t[a - 1] != '_');
                    }
                }
                if e0 < a - 1 {
                    assert(t[e0] == '_');
                    assert(!(t[e0 + 1] == '_' && t[e0] == '_'));
                    assert(word_start(t, e0 + 1, false));
                }
                assert(e0 == a - 1);
            } else {
                if a > 0 {
                    assert(old_words.len() > 0);
                }
            }
            assert forall|k: int| 0 <= k < words.len() implies {
                let word = #[trigger] words[k];
                &&& 0 <= word.0 < word.1 <= t.len()
                &&& (word.1 == t.len() || t[word.1] == '_')
                &&& forall|j: int| word.0 <= j < word.1 ==> t[j] != '_'
            } by {
                if k < old_words.len() {
                    assert(words[k] == old_words[k]);
                }
            }
            assert forall|k: int| 0 < k < words.len() implies (#[trigger] words[k]).0 == words[k
                - 1].1 + 1 by {
                if k < old_words.len() {
                    assert(words[k] == old_words[k]);
                    assert(words[k - 1] == old_words[k - 1]);
                } else {
                    assert(words[k - 1] == old_words.last());
                }
            }
            if old_words.len() > 0 {
                assert(words[0] == old_words[0]);
            }
        } else {
            assert(words == old_words);
            if a == 0 {
                assert(t[0] != '_');
                assert(word_start(t, 0, false));
            }
        }
    }
}

/// The last word of a text of snake shape ends where the text ends.
proof fn lemma_snake_last_word(t: Seq<char>)
    requires
        snake_shaped(t),
        spec_words(t, false).len() > 0,
    ensures
        spec_words(t, false).last().1 == t.len(),
{
    let n = t.len() as int;
    let words = spec_words(t, false);
    lemma_snake_words(t, n);
    lemma_snake_roles(t);
    let e0 = words.last().1;
    assert(words[words.len() - 1] == words.last());
    if e0 < n {
        assert(t[e0] == '_');
        assert(e0 != n - 1);
        assert(!(t[e0 + 1] == '_' && t[e0] == '_'));
        assert(word_start(t, e0 + 1, false));
    }
}

/// A word of a text of snake shape stands as snake_case writes it.
proof fn lemma_snake_word_in_case(t: Seq<char>, k: int)
    requires
        snake_shaped(t),
        0 <= k < spec_words(t, false).len(),
    ensures
        word_in_case(t, spec_words(t, false), k, snake()),
{
    let words = spec_words(t, false);
    lemma_snake_words(t, t.len() as int);
    let word = words[k];
    let x = t.subrange(word.0, word.1);
    assert forall|i: int| 0 <= i < x.len() implies is_small(#[trigger] x[i]) by {
        assert(x[i] == t[word.0 + i]);
        assert(t[word.0 + i] != '_');
    }
    lemma_small_unchanged(x);
}

/// Between two words of a text of snake shape stands one underscore.
proof fn lemma_snake_joined_in_case(t: Seq<char>, k: int)
    requires
        snake_shaped(t),
        0 < k < spec_words(t, false).len(),
    ensures
        joined_in_case(t, spec_words(t, false), k, snake()),
{
    let words = spec_words(t, false);
    lemma_snake_words(t, t.len() as int);
    let before = words[k - 1];
    assert(words[k].0 == before.1 + 1);
    let word = words[k];
    assert(word.1 <= t.len());
    assert(before.1 < t.len());
}

/// A text of snake shape is written in snake_case already.
proof fn lemma_snake_in_case(t: Seq<char>)
    requires
        snake_shaped(t),
    ensures
        in_case(t, false, snake()),
{
    let words = spec_words(t, false);
    if words.len() > 0 {
        lemma_snake_last_word(t);
    }
    if t.len() > 0 {
        lemma_snake_words(t, t.len() as int);
    }
    assert forall|k: int| 0 <= k < words.len() implies word_in_case(t, words, k, snake()) by {
        lemma_snake_word_in_case(t, k);
    }
    assert forall|k: int| 0 < k < words.len() implies joined_in_case(t, words, k, snake()) by {
        lemma_snake_joined_in_case(t, k);
    }
}

/// Idempotence, for a text of snake shape: it is its own snake_case.
pub proof fn lemma_snake_shaped_unchanged(t: Seq<char>)
    requires
        snake_shaped(t),
        t.len() <= usize::MAX,
    ensures
        spec_snake(t, false) == t,
{
    lemma_snake_in_case(t);
    lemma_in_case_unchanged(t, false, snake());
}

/// What a list of words of ASCII letters and digits is written as in
/// snake_case: a text of snake shape, which is empty only if there is no
/// word.
proof fn lemma_format_snake(s: Seq<char>, words: Seq<(int, int)>)
    requires
        s.len() <= usize::MAX,
        forall|k: int| 0 <= k < words.len() ==> 0 <= (#[trigger] words[k]).0 < words[k].1 <= s.len(),
        forall|k: int, j: int|
            0 <= k < words.len() && words[k].0 <= j < words[k].1 ==> (#[trigger] s[j]) <= '\u{007F}'
                && spec_role(s[j]) != Role::Separator && #[trigger] words[k] == words[k],
    ensures
        snake_shaped(spec_format(s, events_of(words), snake())),
        spec_format(s, events_of(words), snake()).len() == 0 <==> words.len() == 0,
    decreases words.len(),
{
    let events = events_of(words);
    if words.len() == 0 {
        assert(spec_format(s, events, snake()) =~= Seq::<char>::empty());
    } else {
        let last = words.last();
        assert(words[words.len() - 1] == last);
        assert(0 <= last.0 < last.1 <= s.len());
        let x = s.subrange(last.0, last.1);
        assert forall|i: int| 0 <= i < x.len() implies (#[trigger] x[i]) <= '\u{007F}' && spec_role(
            x[i],
        ) != Role::Separator by {
            assert(x[i] == s[last.0 + i]);
            assert(words[words.len() - 1] == words[words.len() - 1]);
        }
        lemma_lower_is_small(x);
        let low = spec_lowercase(x);
        assert(low.len() == x.len() && low.len() > 0);
        if words.len() == 1 {
            assert(events.drop_last() =~= Seq::<Event>::empty());
            assert(!has_word(events.drop_last()));
            assert(spec_format(s, events.drop_last(), snake()) =~= Seq::<char>::empty());
            let out = spec_format(s, events, snake());
            assert(out =~= low);
            assert(snake_shaped(out));
        } else {
            let head = words.drop_last();
            assert forall|k: int| 0 <= k < head.len() implies 0 <= (#[trigger] head[k]).0
                < head[k].1 <= s.len() by {
                assert(head[k] == words[k]);
            }
            assert forall|k: int, j: int| 0 <= k < head.len() && head[k].0 <= j < head[k].1 implies (
            #[trigger] s[j]) <= '\u{007F}' && spec_role(s[j]) != Role::Separator
                && #[trigger] head[k] == head[k] by {
                assert(head[k] == words[k]);
                assert(words[k] == words[k]);
            }
            lemma_format_snake(s, head);
            lemma_events_of(head);
            let before = spec_format(s, events_of(head), snake());
            let with_boundary = events_of(head).push(Event::Boundary);
            assert(events.drop_last() =~= with_boundary);
            assert(with_boundary.drop_last() =~= events_of(head));
            assert(has_word(with_boundary)) by {
                assert(events_of(head)[2 * 0int] is Word);
                assert(with_boundary[0] is Word);
            }
            assert(spec_format(s, with_boundary, snake()) =~= before.push('_'));
            let out = spec_format(s, events, snake());
            assert(out =~= before.push('_') + low);
            assert(before.len() > 0);
            assert forall|i: int| 0 <= i < out.len() implies is_small(#[trigger] out[i]) || out[i]
                == '_' by {
                if i < before.len() {
                    assert(out[i] == before[i]);
                } else if i > before.len() {
                    assert(out[i] == low[i - before.len() - 1]);
                }
            }
            assert forall|i: int| 0 < i < out.len() implies !(#[trigger] out[i] == '_' && out[i
                - 1] == '_') by {
                if i < before.len() {
                    assert(out[i] == before[i]);
                    assert(out[i - 1] == before[i - 1]);
                } else if i == before.len() {
                    assert(out[i - 1] == before[before.len() - 1]);
                } else {
                    assert(out[i] == low[i - before.len() - 1]);
                    assert(is_small(low[i - before.len() - 1]));
                }
            }
            assert(out[0] == before[0]);
            assert(out[out.len() - 1] == low[low.len() - 1]);
            assert(is_small(low[low.len() - 1]));
        }
    }
}

/// What snake_case makes of an ASCII text: small letters and digits, which
/// can be part of a word, with single underscores between them and none at
/// the start or at the end; and nothing at all exactly if no character of
/// the text can be part of a word.
pub proof fn lemma_snake_of_ascii(s: Seq<char>)
    requires
        is_ascii_text(s),
        s.len() <= usize::MAX,
    ensures
        snake_shaped(spec_snake(s, false)),
        spec_snake(s, false).len() == 0 <==> !has_word_char(s),
        forall|i: int|
            0 <= i < spec_snake(s, false).len() && spec_snake(s, false)[i] != '_'
                ==> spec_allowed_in_word(#[trigger] spec_snake(s, false)[i]),
{
    let words = spec_words(s, false);
    lemma_words_within(s, s.len() as int, false);
    assert forall|k: int, j: int| 0 <= k < words.len() && words[k].0 <= j < words[k].1 implies (
    #[trigger] s[j]) <= '\u{007F}' && spec_role(s[j]) != Role::Separator && #[trigger] words[k]
        == words[k] by {
        lemma_words_are_words(s, s.len() as int, false, k);
        lemma_word_is_whole(s, words[k].0, false);
    }
    lemma_format_snake(s, words);
    lemma_boundary_symmetry(s, false);
    lemma_events_of(words);
    let out = spec_snake(s, false);
    assert(out == spec_format(s, events_of(words), snake()));
    assert forall|i: int| 0 <= i < out.len() && out[i] != '_' implies spec_allowed_in_word(
        #[trigger] out[i],
    ) by {
        assert(is_small(out[i]));
        lemma_ascii(out[i]);
    }
}

/// Idempotence, for ASCII texts: the snake_case of an ASCII text is its
/// own snake_case.
pub proof fn lemma_snake_twice(s: Seq<char>)
    requires
        is_ascii_text(s),
        s.len() <= usize::MAX,
        spec_snake(s, false).len() <= usize::MAX,
    ensures
        spec_snake(spec_snake(s, false), false) == spec_snake(s, false),
{
    lemma_snake_of_ascii(s);
    lemma_snake_shaped_unchanged(spec_snake(s, false));
}

} // verus!
