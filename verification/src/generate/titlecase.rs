//! The titlecase mappings that differ from the uppercase mappings.
//!
//! `UnicodeData.txt` gives the mappings to one character, and
//! `SpecialCasing.txt` those to more than one. A character is listed if
//! its titlecase mapping is not its uppercase mapping; no character may be
//! listed twice.

use crate::generate::pattern::{captures, compile, compiles, groups_of, pattern_of};
use crate::generate::scan::{
    is_white_space, lines, parse_hex, spec_is_white_space, spec_lines, spec_parse_hex,
    spec_trim, trim,
};
use crate::generate::tree::{index_of, new_index, put_index};
use crate::generate::unicode_data::{DataFiles, Groups, TableError};
use crate::text::chars_of;
use crate::transform::string_of;
use rustc_hash::FxBuildHasher;
use std::collections::HashMap;
use vstd::prelude::*;

verus! {


/// Characters with their mappings.
pub type Mappings = Seq<(char, Seq<char>)>;

/// The character with the code point `cp`, if there is one: the
/// surrogates are no characters, nor is a number above U+10FFFF.
pub open spec fn spec_char(cp: u32) -> Option<char> {
    if cp <= 0xD7FF || 0xE000 <= cp <= 0x10FFFF {
        Some(cp as char)
    } else {
        None
    }
}

/// `char::from_u32`: the character with a code point, if there is one.
#[verifier::external_body]
pub(crate) fn char_of(cp: u32) -> (c: Option<char>)
    ensures
        c == spec_char(cp),
{
    char::from_u32(cp)
}

/// The regular expression for a line of `UnicodeData.txt` that gives a
/// titlecase mapping: it captures the code point, the uppercase mapping
/// and the titlecase mapping.
pub open spec fn simple_pattern() -> Seq<char> {
    "^([0-9A-F]+);(?:.*?);(?:.*?);(?:.*?);(?:.*?);(?:.*?);(?:.*?);(?:.*?);(?:.*?);(?:.*?);(?:.*?);(?:.*?);([0-9A-F]*);(?:.*?);([0-9A-F]+)"@
}

/// The regular expression for a line of `SpecialCasing.txt` that holds for
/// every context: it captures the code point, the titlecase mapping and
/// the uppercase mapping.
pub open spec fn special_pattern() -> Seq<char> {
    "^([0-9A-F]+);(?:[0-9A-F ]*);([0-9A-F ]*);([0-9A-F ]*);[^0-9A-Fa-f_]*#"@
}

/// Where the word ends that begins at `start`: at the next white space, or
/// at the end of the text.
pub open spec fn word_stop(s: Seq<char>, start: int) -> int
    decreases s.len() - start,
{
    if start >= s.len() || spec_is_white_space(s[start]) {
        start
    } else {
        word_stop(s, start + 1)
    }
}

/// The words of `s` from `start` on: the stretches without white space.
pub open spec fn words_from(s: Seq<char>, start: int) -> Seq<Seq<char>>
    decreases s.len() - start,
{
    if start < 0 || start >= s.len() {
        Seq::empty()
    } else if spec_is_white_space(s[start]) {
        words_from(s, start + 1)
    } else {
        let stop = word_stop(s, start);
        if start < stop < s.len() {
            seq![s.subrange(start, stop)] + words_from(s, stop + 1)
        } else {
            seq![s.subrange(start, stop)]
        }
    }
}

/// The characters whose code points the words of `text` write.
pub open spec fn spec_mapping(words: Seq<Seq<char>>) -> Option<Seq<char>>
    decreases words.len(),
{
    if words.len() == 0 {
        Some(Seq::empty())
    } else {
        match (spec_mapping(words.drop_last()), spec_parse_hex(words.last())) {
            (Some(head), Some(cp)) => match spec_char(cp) {
                Some(c) => Some(head.push(c)),
                None => None,
            },
            _ => None,
        }
    }
}

/// `entries` lists `c`.
pub open spec fn has_key(entries: Mappings, c: char) -> bool {
    exists|i: int| 0 <= i < entries.len() && (#[trigger] entries[i]).0 == c
}

/// The first place from `i` on whose character is not below `c`.
pub open spec fn place_from(entries: Mappings, c: char, i: int) -> int
    decreases entries.len() - i,
{
    if i >= entries.len() || entries[i].0 >= c {
        i
    } else {
        place_from(entries, c, i + 1)
    }
}

/// `entries` with `c` and its mapping put in before the first character
/// that is not below `c`.
pub open spec fn put(entries: Mappings, c: char, mapping: Seq<char>) -> Mappings {
    entries.insert(place_from(entries, c, 0), (c, mapping))
}

/// The characters of `entries` ascend.
pub open spec fn keys_ascend(entries: Mappings) -> bool {
    forall|i: int, j: int| 0 <= i < j < entries.len() ==> entries[i].0 < entries[j].0
}

/// Whether a line gives the same text as titlecase and as uppercase
/// mapping: in `SpecialCasing.txt` the texts are compared without the
/// white space around them, in `UnicodeData.txt` as they are.
pub open spec fn same_mapping(title: Seq<char>, upper: Seq<char>, special: bool) -> bool {
    if special {
        spec_trim(title) == spec_trim(upper)
    } else {
        title == upper
    }
}

/// The mapping that the text `title` writes: in `SpecialCasing.txt` the
/// characters of the code points that are its words, in `UnicodeData.txt`
/// the one character whose code point it is.
pub open spec fn title_mapping(title: Seq<char>, special: bool) -> Option<Seq<char>> {
    if special {
        spec_mapping(words_from(title, 0))
    } else {
        match spec_parse_hex(title) {
            Some(cp) => match spec_char(cp) {
                Some(c) => Some(seq![c]),
                None => None,
            },
            None => None,
        }
    }
}

/// The entry that a line gives, if it gives one: the character of the code
/// point `code` with the mapping that `title` writes, unless `title` and
/// `upper` are the same mapping.
pub open spec fn entry_of(code: Seq<char>, title: Seq<char>, upper: Seq<char>, special: bool) -> Result<
    Option<(char, Seq<char>)>,
    TableError,
> {
    if same_mapping(title, upper, special) {
        Ok(None)
    } else {
        match (spec_parse_hex(code), title_mapping(title, special)) {
            (Some(cp), Some(mapping)) => match spec_char(cp) {
                Some(c) => Ok(Some((c, mapping))),
                None => Err(TableError::CodePoint),
            },
            _ => Err(TableError::CodePoint),
        }
    }
}

/// The mappings after a line whose match, if any, captured `groups`, of
/// which the group `title` holds the titlecase mapping and the group
/// `upper` the uppercase mapping. The titlecase mapping is the second
/// group in `SpecialCasing.txt` and the third in `UnicodeData.txt`.
pub open spec fn after_line(entries: Mappings, groups: Option<Groups>, title: int, upper: int) -> Result<
    Mappings,
    TableError,
> {
    match groups {
        None => Ok(entries),
        Some(groups) => if groups.len() < 4 || groups[1] is None || groups[2] is None
            || groups[3] is None {
            Err(TableError::CodePoint)
        } else {
            match entry_of(groups[1]->0, groups[title]->0, groups[upper]->0, title == 2) {
                Err(e) => Err(e),
                Ok(None) => Ok(entries),
                Ok(Some((c, mapping))) => if has_key(entries, c) {
                    Err(TableError::Mapping)
                } else {
                    Ok(put(entries, c, mapping))
                },
            }
        },
    }
}

/// The mappings after the lines `lines`, each matched against `pattern`;
/// the first line that fails decides.
pub open spec fn after_lines(
    entries: Mappings,
    pattern: Seq<char>,
    lines: Seq<Seq<char>>,
    title: int,
    upper: int,
) -> Result<Mappings, TableError>
    decreases lines.len(),
{
    if lines.len() == 0 {
        Ok(entries)
    } else {
        match after_lines(entries, pattern, lines.drop_last(), title, upper) {
            Err(e) => Err(e),
            Ok(before) => after_line(before, groups_of(pattern, lines.last()), title, upper),
        }
    }
}

/// The mappings that `titlecases` finds in the data files.
pub open spec fn spec_titlecases(unicode_data: Seq<char>, special_casing: Seq<char>) -> Result<
    Mappings,
    TableError,
> {
    if !compiles(simple_pattern()) {
        Err(TableError::Pattern)
    } else {
        match after_lines(Seq::empty(), simple_pattern(), spec_lines(unicode_data), 3, 2) {
            Err(e) => Err(e),
            Ok(simple) => if !compiles(special_pattern()) {
                Err(TableError::Pattern)
            } else {
                after_lines(simple, special_pattern(), spec_lines(special_casing), 2, 3)
            },
        }
    }
}

/// The words of a text: its stretches without white space.
pub fn words(text: &str) -> (out: Vec<String>)
    ensures
        out.deep_view() == words_from(text@, 0),
{
    let chars = chars_of(text);
    let mut out: Vec<String> = Vec::new();
    let mut start: usize = 0;
    assert(out.deep_view() =~= Seq::<Seq<char>>::empty());
    while start < chars.len()
        invariant
            chars@ == text@,
            0 <= start <= chars@.len(),
            out.deep_view() + words_from(text@, start as int) == words_from(text@, 0),
        decreases chars.len() - start,
    {
        if is_white_space(chars[start]) {
            start = start + 1;
        } else {
            let mut stop: usize = start;
            while stop < chars.len() && !is_white_space(chars[stop])
                invariant
                    start <= stop <= chars@.len(),
                    word_stop(chars@, stop as int) == word_stop(chars@, start as int),
                decreases chars.len() - stop,
            {
                stop = stop + 1;
            }
            let word = string_of(&chars, start, stop);
            let ghost before = out.deep_view();
            out.push(word);
            assert(out.deep_view() =~= before.push(text@.subrange(start as int, stop as int))) by {
                assert forall|k: int| 0 <= k < out@.len() implies #[trigger] out.deep_view()[k]
                    == before.push(text@.subrange(start as int, stop as int))[k] by {
                    if k < before.len() {
                        assert(out.deep_view()[k] == out@[k].deep_view());
                    }
                }
            }
            if stop == chars.len() {
                assert(out.deep_view() =~= before + words_from(text@, start as int));
                return out;
            }
            assert(before.push(text@.subrange(start as int, stop as int)) + words_from(
                text@,
                stop + 1,
            ) =~= before + words_from(text@, start as int));
            start = stop + 1;
        }
    }
    assert(words_from(text@, start as int) =~= Seq::<Seq<char>>::empty());
    assert(out.deep_view() + Seq::<Seq<char>>::empty() =~= out.deep_view());
    out
}

/// The characters whose code points `words` write.
fn mapping_of(words: &Vec<String>) -> (mapping: Option<Vec<char>>)
    ensures
        mapping.deep_view() == spec_mapping(words.deep_view()),
{
    let ghost all = words.deep_view();
    let mut mapping: Vec<char> = Vec::new();
    let mut i: usize = 0;
    assert(all.take(0) =~= Seq::<Seq<char>>::empty());
    while i < words.len()
        invariant
            all == words.deep_view(),
            0 <= i <= words@.len(),
            spec_mapping(all.take(i as int)) == Some(mapping@),
        decreases words.len() - i,
    {
        let ghost more = all.take(i + 1);
        assert(more.drop_last() =~= all.take(i as int));
        assert(more.last() == words@[i as int]@) by {
            assert(all[i as int] == words@[i as int].deep_view());
        }
        let c = match parse_hex(words[i].as_str()) {
            Some(cp) => char_of(cp),
            None => None,
        };
        match c {
            Some(c) => {
                mapping.push(c);
            },
            None => {
                proof {
                    lemma_mapping_fails(all, i + 1, all.len() as int);
                    assert(all.take(all.len() as int) =~= all);
                }
                return None;
            },
        }
        i = i + 1;
    }
    assert(all.take(words@.len() as int) =~= all);
    Some(mapping)
}

proof fn lemma_mapping_fails(words: Seq<Seq<char>>, n: int, m: int)
    requires
        0 <= n <= m <= words.len(),
        spec_mapping(words.take(n)) is None,
    ensures
        spec_mapping(words.take(m)) is None,
    decreases m - n,
{
    if n < m {
        lemma_mapping_fails(words, n, m - 1);
        assert(words.take(m).drop_last() =~= words.take(m - 1));
    }
}

/// Puts `c` with its mapping in before the first character that is not
/// below it.
fn put_entry(entries: &mut Vec<(char, Vec<char>)>, c: char, mapping: Vec<char>)
    ensures
        final(entries).deep_view() == put(old(entries).deep_view(), c, mapping@),
{
    let ghost before = entries.deep_view();
    let mut at: usize = 0;
    while at < entries.len() && entries[at].0 < c
        invariant
            0 <= at <= entries@.len(),
            *entries == *old(entries),
            before == entries.deep_view(),
            place_from(before, c, at as int) == place_from(before, c, 0),
        decreases entries.len() - at,
    {
        assert(before[at as int] == entries@[at as int].deep_view());
        at = at + 1;
    }
    assert(place_from(before, c, 0) == at) by {
        if at < entries@.len() {
            assert(before[at as int] == entries@[at as int].deep_view());
        }
    }
    entries.insert(at, (c, mapping));
    assert(entries.deep_view() =~= before.insert(at as int, (c, mapping@))) by {
        assert forall|k: int| 0 <= k < entries@.len() implies #[trigger] entries.deep_view()[k]
            == before.insert(at as int, (c, mapping@))[k] by {
            assert(entries.deep_view()[k] == entries@[k].deep_view());
            if k < at {
                assert(before[k] == old(entries)@[k].deep_view());
            } else if k > at {
                assert(before[k - 1] == old(entries)@[k - 1].deep_view());
            }
        }
    }
}

/// What the scan of the lines knows: the index holds the code points of
/// the characters that the entries list.
pub open spec fn index_matches(index: Map<u64, usize>, entries: Mappings) -> bool {
    forall|c: char| #[trigger] has_key(entries, c) <==> index.contains_key(c as u64)
}

/// Applies one line whose match captured `groups`, of which the group
/// `title` holds the titlecase mapping and the group `upper` the
/// uppercase mapping.
pub fn apply_line(
    entries: &mut Vec<(char, Vec<char>)>,
    index: &mut HashMap<u64, usize, FxBuildHasher>,
    groups: &Option<Vec<Option<String>>>,
    title: usize,
    upper: usize,
) -> (done: Result<(), TableError>)
    requires
        (title == 2 && upper == 3) || (title == 3 && upper == 2),
        index_matches(old(index)@, old(entries).deep_view()),
    ensures
        match after_line(
            old(entries).deep_view(),
            groups.deep_view(),
            title as int,
            upper as int,
        ) {
            Ok(after) => done is Ok && final(entries).deep_view() == after && index_matches(
                final(index)@,
                after,
            ) && (keys_ascend(old(entries).deep_view()) ==> keys_ascend(after)),
            Err(e) => done == Err::<(), TableError>(e),
        },
{
    let groups = match groups {
        None => {
            return Ok(());
        },
        Some(groups) => groups,
    };
    assert(groups.deep_view().len() == groups@.len());
    if groups.len() < 4 {
        return Err(TableError::CodePoint);
    }
    assert(groups.deep_view()[1] == groups@[1].deep_view());
    assert(groups.deep_view()[2] == groups@[2].deep_view());
    assert(groups.deep_view()[3] == groups@[3].deep_view());
    let (code, title_text, upper_text) = match (&groups[1], &groups[title], &groups[upper]) {
        (Some(code), Some(title_text), Some(upper_text)) => (code, title_text, upper_text),
        _ => {
            return Err(TableError::CodePoint);
        },
    };
    let special = title == 2;
    let same = if special {
        trim(title_text.as_str()) == trim(upper_text.as_str())
    } else {
        *title_text == *upper_text
    };
    if same {
        return Ok(());
    }
    let c = match parse_hex(code.as_str()) {
        Some(cp) => char_of(cp),
        None => None,
    };
    let mapping = if special {
        mapping_of(&words(title_text.as_str()))
    } else {
        match parse_hex(title_text.as_str()) {
            Some(cp) => match char_of(cp) {
                Some(mapped) => {
                    let mut one: Vec<char> = Vec::new();
                    one.push(mapped);
                    assert(one@ =~= seq![mapped]);
                    assert(one.deep_view() =~= one@);
                    Some(one)
                },
                None => None,
            },
            None => None,
        }
    };
    let (c, mapping) = match (c, mapping) {
        (Some(c), Some(mapping)) => (c, mapping),
        _ => {
            return Err(TableError::CodePoint);
        },
    };
    assert(mapping.deep_view() =~= mapping@);
    let ghost before = entries.deep_view();
    let key: u64 = c as u64;
    match index_of(index, &key) {
        Some(_) => {
            assert(has_key(before, c));
            return Err(TableError::Mapping);
        },
        None => {},
    }
    assert(!has_key(before, c));
    put_index(index, key, 0);
    put_entry(entries, c, mapping);
    proof {
        let after = entries.deep_view();
        if keys_ascend(before) {
            lemma_put_ascends(before, c, mapping@);
        }
        assert forall|d: char| #[trigger] has_key(after, d) <==> index@.contains_key(d as u64) by {
            lemma_put_keys(before, c, mapping@, d);
            assert(has_key(before, d) <==> old(index)@.contains_key(d as u64));
            lemma_code_point_tells(c, d);
        }
    }
    Ok(())
}

/// Where the characters ascend and `c` is not among them, they ascend
/// still when `c` has been put in.
proof fn lemma_put_ascends(entries: Mappings, c: char, mapping: Seq<char>)
    requires
        keys_ascend(entries),
        !has_key(entries, c),
    ensures
        keys_ascend(put(entries, c, mapping)),
{
    let at = place_from(entries, c, 0);
    let after = put(entries, c, mapping);
    lemma_place_within(entries, c, 0);
    lemma_place_splits(entries, c, 0);
    assert(after.len() == entries.len() + 1);
    assert(after[at] == (c, mapping));
    assert(forall|k: int| 0 <= k < at ==> after[k] == entries[k]);
    assert(forall|k: int| at < k < after.len() ==> after[k] == entries[k - 1]);
    assert forall|i: int, j: int| 0 <= i < j < after.len() implies after[i].0 < after[j].0 by {
        if j < at {
            assert(entries[i].0 < entries[j].0);
        } else if j == at {
            assert(entries[i].0 < c);
        } else if i < at {
            assert(entries[i].0 < entries[j - 1].0);
        } else if i == at {
            assert(entries[at].0 <= entries[j - 1].0) by {
                if at < j - 1 {
                    assert(entries[at].0 < entries[j - 1].0);
                }
            }
            assert(entries[at].0 >= c);
            assert(entries[at].0 != c);
        } else {
            assert(entries[i - 1].0 < entries[j - 1].0);
        }
    }
}

/// Before the place where `c` is put in, every character is below `c`; at
/// the place stands one that is not, if any stands there.
proof fn lemma_place_splits(entries: Mappings, c: char, i: int)
    requires
        0 <= i <= entries.len(),
    ensures
        forall|k: int| i <= k < place_from(entries, c, i) ==> (#[trigger] entries[k]).0 < c,
        place_from(entries, c, i) < entries.len() ==> entries[place_from(entries, c, i)].0 >= c,
    decreases entries.len() - i,
{
    if !(i >= entries.len() || entries[i].0 >= c) {
        lemma_place_splits(entries, c, i + 1);
    }
}

/// Two characters with one code point are one character.
proof fn lemma_code_point_tells(c: char, d: char)
    ensures
        d as u64 == c as u64 <==> d == c,
{
}

/// What `put` lists: the character that was put in, and what was listed
/// before.
proof fn lemma_put_keys(entries: Mappings, c: char, mapping: Seq<char>, d: char)
    ensures
        has_key(put(entries, c, mapping), d) <==> d == c || has_key(entries, d),
{
    let at = place_from(entries, c, 0);
    let after = put(entries, c, mapping);
    lemma_place_within(entries, c, 0);
    assert(after.len() == entries.len() + 1);
    assert(after[at] == (c, mapping));
    assert(forall|k: int| 0 <= k < at ==> after[k] == entries[k]);
    assert(forall|k: int| at < k < after.len() ==> after[k] == entries[k - 1]);
    if has_key(after, d) {
        let i = choose|i: int| 0 <= i < after.len() && (#[trigger] after[i]).0 == d;
        if i < at {
            assert(entries[i].0 == d);
        } else if i > at {
            assert(entries[i - 1].0 == d);
        }
    }
    if has_key(entries, d) {
        let i = choose|i: int| 0 <= i < entries.len() && (#[trigger] entries[i]).0 == d;
        if i < at {
            assert(after[i].0 == d);
        } else {
            assert(after[i + 1] == entries[i]);
            assert(after[i + 1].0 == d);
        }
    }
    if d == c {
        assert(after[at].0 == c);
    }
}

proof fn lemma_place_within(entries: Mappings, c: char, i: int)
    requires
        0 <= i <= entries.len(),
    ensures
        i <= place_from(entries, c, i) <= entries.len(),
    decreases entries.len() - i,
{
    if !(i >= entries.len() || entries[i].0 >= c) {
        lemma_place_within(entries, c, i + 1);
    }
}

proof fn lemma_lines_fail(
    entries: Mappings,
    pattern: Seq<char>,
    lines: Seq<Seq<char>>,
    title: int,
    upper: int,
    n: int,
    m: int,
)
    requires
        0 <= n <= m <= lines.len(),
        after_lines(entries, pattern, lines.take(n), title, upper) is Err,
    ensures
        after_lines(entries, pattern, lines.take(m), title, upper) == after_lines(
            entries,
            pattern,
            lines.take(n),
            title,
            upper,
        ),
    decreases m - n,
{
    if n < m {
        lemma_lines_fail(entries, pattern, lines, title, upper, n, m - 1);
        assert(lines.take(m).drop_last() =~= lines.take(m - 1));
    }
}

/// Applies the lines of a data file that `pattern` matches.
fn apply_lines(
    entries: &mut Vec<(char, Vec<char>)>,
    index: &mut HashMap<u64, usize, FxBuildHasher>,
    text: &str,
    pattern: &str,
    title: usize,
    upper: usize,
) -> (done: Result<(), TableError>)
    requires
        (title == 2 && upper == 3) || (title == 3 && upper == 2),
        index_matches(old(index)@, old(entries).deep_view()),
    ensures
        !compiles(pattern@) ==> done == Err::<(), TableError>(TableError::Pattern),
        compiles(pattern@) ==> match after_lines(
            old(entries).deep_view(),
            pattern@,
            spec_lines(text@),
            title as int,
            upper as int,
        ) {
            Ok(after) => done is Ok && final(entries).deep_view() == after && index_matches(
                final(index)@,
                after,
            ) && (keys_ascend(old(entries).deep_view()) ==> keys_ascend(after)),
            Err(e) => done == Err::<(), TableError>(e),
        },
{
    let regex = match compile(pattern) {
        Some(regex) => regex,
        None => {
            return Err(TableError::Pattern);
        },
    };
    let all = lines(text);
    let ghost texts = spec_lines(text@);
    let ghost start = entries.deep_view();
    let mut i: usize = 0;
    assert(texts.take(0) =~= Seq::<Seq<char>>::empty());
    while i < all.len()
        invariant
            (title == 2 && upper == 3) || (title == 3 && upper == 2),
            all.deep_view() == texts,
            texts == spec_lines(text@),
            start == old(entries).deep_view(),
            0 <= i <= all@.len(),
            pattern_of(regex) == pattern@,
            compiles(pattern@),
            index_matches(index@, entries.deep_view()),
            keys_ascend(start) ==> keys_ascend(entries.deep_view()),
            after_lines(start, pattern@, texts.take(i as int), title as int, upper as int) == Ok::<
                Mappings,
                TableError,
            >(entries.deep_view()),
        decreases all.len() - i,
    {
        let ghost more = texts.take(i + 1);
        assert(more.drop_last() =~= texts.take(i as int));
        assert(more.last() == all@[i as int]@) by {
            assert(all.deep_view()[i as int] == all@[i as int].deep_view());
        }
        let groups = captures(&regex, all[i].as_str());
        match apply_line(entries, index, &groups, title, upper) {
            Ok(()) => {},
            Err(e) => {
                proof {
                    assert(after_lines(start, pattern@, more, title as int, upper as int) == Err::<
                        Mappings,
                        TableError,
                    >(e));
                    lemma_lines_fail(
                        start,
                        pattern@,
                        texts,
                        title as int,
                        upper as int,
                        i + 1,
                        texts.len() as int,
                    );
                    assert(texts.take(texts.len() as int) =~= texts);
                }
                return Err(e);
            },
        }
        i = i + 1;
    }
    assert(texts.take(all@.len() as int) =~= texts);
    Ok(())
}

/// The characters whose titlecase mapping differs from their uppercase
/// mapping, each with its titlecase mapping, in ascending order.
pub fn titlecases(data: &DataFiles) -> (found: Result<Vec<(char, Vec<char>)>, TableError>)
    ensures
        match spec_titlecases(data.unicode_data@, data.special_casing@) {
            Ok(entries) => found is Ok && found->Ok_0.deep_view() == entries && keys_ascend(
                entries,
            ),
            Err(e) => found is Err && found->Err_0 == e,
        },
{
    let mut entries: Vec<(char, Vec<char>)> = Vec::new();
    let mut index = new_index();
    assert(entries.deep_view() =~= Seq::<(char, Seq<char>)>::empty());
    // Mappings to one character.
    match apply_lines(
        &mut entries,
        &mut index,
        data.unicode_data.as_str(),
        "^([0-9A-F]+);(?:.*?);(?:.*?);(?:.*?);(?:.*?);(?:.*?);(?:.*?);(?:.*?);(?:.*?);(?:.*?);(?:.*?);(?:.*?);([0-9A-F]*);(?:.*?);([0-9A-F]+)",
        3,
        2,
    ) {
        Ok(()) => {},
        Err(e) => {
            return Err(e);
        },
    }
    // Mappings to more than one character.
    match apply_lines(
        &mut entries,
        &mut index,
        data.special_casing.as_str(),
        "^([0-9A-F]+);(?:[0-9A-F ]*);([0-9A-F ]*);([0-9A-F ]*);[^0-9A-Fa-f_]*#",
        2,
        3,
    ) {
        Ok(()) => {},
        Err(e) => {
            return Err(e);
        },
    }
    Ok(entries)
}

/// The length of the longest mapping.
pub fn max_expansion(entries: &Vec<(char, Vec<char>)>) -> (longest: usize)
    ensures
        forall|i: int| 0 <= i < entries@.len() ==> (#[trigger] entries@[i]).1@.len() <= longest,
        entries@.len() == 0 ==> longest == 0,
        entries@.len() > 0 ==> exists|i: int|
            0 <= i < entries@.len() && (#[trigger] entries@[i]).1@.len() == longest,
{
    let mut longest: usize = 0;
    let mut i: usize = 0;
    while i < entries.len()
        invariant
            0 <= i <= entries@.len(),
            forall|k: int| 0 <= k < i ==> (#[trigger] entries@[k]).1@.len() <= longest,
            i == 0 ==> longest == 0,
            i > 0 ==> exists|k: int| 0 <= k < i && (#[trigger] entries@[k]).1@.len() == longest,
        decreases entries.len() - i,
    {
        if entries[i].1.len() > longest {
            longest = entries[i].1.len();
        }
        i = i + 1;
    }
    longest
}

} // verus!
