//! What the segmenter and the word renderers ask of a single character:
//! whether it can stand in a word, whether it is a nonspacing mark, which
//! case it has as a letter, and what its titlecase mapping is.

use crate::ranges::{ascending, contains, in_ranges, lemma_none_from};
use crate::text::{ascii_upper, push_upper, to_ascii_upper, upper_of};
use crate::unicode::lower::LOWERCASE_LETTERS;
use crate::unicode::mappings::{keys_ascending, TITLECASE_MAPPINGS};
use crate::unicode::marks::NONSPACING_MARKS;
use crate::unicode::title::TITLECASE_LETTERS;
use crate::unicode::upper::UPPERCASE_LETTERS;
use crate::unicode::word::ALLOWED_IN_WORD;
use vstd::prelude::*;

verus! {

/// The case of a cased letter.
#[derive(Clone, Copy, Debug, PartialEq, Eq, Structural, Hash)]
pub enum CasedLetterKind {
    Lowercase,
    Uppercase,
    Titlecase,
}

/// `c` can be part of a word: its code point is listed in `ALLOWED_IN_WORD`.
#[verifier::opaque]
pub open spec fn spec_allowed_in_word(c: char) -> bool {
    in_ranges(ALLOWED_IN_WORD@, c as u32)
}

/// `c` is a nonspacing or enclosing mark: its code point is listed in
/// `NONSPACING_MARKS`.
#[verifier::opaque]
pub open spec fn spec_is_nonspacing_mark(c: char) -> bool {
    in_ranges(NONSPACING_MARKS@, c as u32)
}

/// The general category of `c`, where it is that of a cased letter.
#[verifier::opaque]
pub open spec fn cased_category(c: char) -> Option<CasedLetterKind> {
    if in_ranges(LOWERCASE_LETTERS@, c as u32) {
        Some(CasedLetterKind::Lowercase)
    } else if in_ranges(UPPERCASE_LETTERS@, c as u32) {
        Some(CasedLetterKind::Uppercase)
    } else if in_ranges(TITLECASE_LETTERS@, c as u32) {
        Some(CasedLetterKind::Titlecase)
    } else {
        None
    }
}

/// The case of `c`, if it is a cased letter that can be part of a word.
pub open spec fn spec_letter_casing(c: char) -> Option<CasedLetterKind> {
    if spec_allowed_in_word(c) {
        cased_category(c)
    } else {
        None
    }
}

/// `c` is one of the four titlecase letters that are not Greek: the
/// digraphs U+01C5, U+01C8, U+01CB and U+01F2.
pub open spec fn spec_is_non_greek_titlecase(c: char) -> bool {
    c == '\u{01C5}' || c == '\u{01C8}' || c == '\u{01CB}' || c == '\u{01F2}'
}

/// The characters of one entry of a list of mappings: the components after
/// the first, up to the first U+0000.
pub open spec fn mapping_chars(entry: (char, char, char, char)) -> Seq<char> {
    if entry.1 == '\u{0000}' {
        Seq::empty()
    } else if entry.2 == '\u{0000}' {
        seq![entry.1]
    } else if entry.3 == '\u{0000}' {
        seq![entry.1, entry.2]
    } else {
        seq![entry.1, entry.2, entry.3]
    }
}

/// `i` is a place of `c` in `mappings`.
pub open spec fn is_mapping_index(mappings: Seq<(char, char, char, char)>, c: char, i: int) -> bool {
    0 <= i < mappings.len() && mappings[i].0 == c
}

/// The characters that `mappings` lists for `c`, if it lists `c`.
pub open spec fn mapping_in(mappings: Seq<(char, char, char, char)>, c: char) -> Option<Seq<char>> {
    if exists|i: int| is_mapping_index(mappings, c, i) {
        Some(mapping_chars(mappings[choose|i: int| is_mapping_index(mappings, c, i)]))
    } else {
        None
    }
}

/// The mapping that `TITLECASE_MAPPINGS` lists for `c`, if it lists one.
#[verifier::opaque]
pub open spec fn listed_mapping(c: char) -> Option<Seq<char>> {
    mapping_in(TITLECASE_MAPPINGS@, c)
}

/// The titlecase mapping of `c`: the uppercase letter for an ASCII
/// character; for a character that `TITLECASE_MAPPINGS` lists, the mapping
/// listed there; for every other character, its uppercase mapping.
pub open spec fn spec_to_titlecase(c: char) -> Seq<char> {
    if c <= '\u{007F}' {
        seq![ascii_upper(c)]
    } else {
        match listed_mapping(c) {
            Some(mapping) => mapping,
            None => upper_of(c),
        }
    }
}

/// What the lists say of the ASCII characters: the letters and the digits
/// can be part of a word and nothing else can, the letters have their
/// case, and none is a mark or a titlecase letter.
pub proof fn lemma_ascii(c: char)
    requires
        c <= '\u{007F}',
    ensures
        spec_allowed_in_word(c) == ('0' <= c <= '9' || 'A' <= c <= 'Z' || 'a' <= c <= 'z'),
        spec_letter_casing(c) == if 'a' <= c <= 'z' {
            Some(CasedLetterKind::Lowercase)
        } else if 'A' <= c <= 'Z' {
            Some(CasedLetterKind::Uppercase)
        } else {
            None
        },
        !spec_is_nonspacing_mark(c),
        !spec_is_non_greek_titlecase(c),
{
    lemma_ascii_word(c);
    lemma_ascii_marks(c);
    lemma_ascii_lower(c);
    lemma_ascii_upper(c);
    lemma_ascii_title(c);
    reveal(cased_category);
}

/// Of the ASCII code points, an ascending list holds those that its ranges
/// below U+0080 hold.
proof fn lemma_ascii_in(list: Seq<(u32, u32)>, k: int, c: u32)
    requires
        ascending(list),
        0 <= k <= 3,
        k < list.len(),
        list[k].0 >= 0x80,
        c < 0x80,
    ensures
        in_ranges(list, c) == ((0 < k && list[0].0 <= c <= list[0].1) || (1 < k && list[1].0 <= c
            <= list[1].1) || (2 < k && list[2].0 <= c <= list[2].1)),
{
    lemma_none_from(list, k, c);
    if in_ranges(list, c) {
        let i = choose|i: int| 0 <= i < list.len() && (#[trigger] list[i]).0 <= c <= list[i].1;
        assert(i < k);
    }
}

proof fn lemma_ascii_word(c: char)
    requires
        c <= '\u{007F}',
    ensures
        spec_allowed_in_word(c) == ('0' <= c <= '9' || 'A' <= c <= 'Z' || 'a' <= c <= 'z'),
{
    reveal(spec_allowed_in_word);
    crate::unicode::word::lemma_ascending();
    crate::unicode::word::lemma_first();
    lemma_ascii_letters_and_digits(ALLOWED_IN_WORD@, c);
}

/// Of the ASCII characters, a list that begins as `ALLOWED_IN_WORD` does
/// holds the letters and the digits.
proof fn lemma_ascii_letters_and_digits(list: Seq<(u32, u32)>, c: char)
    requires
        ascending(list),
        list.len() > 3,
        list[0] == (0x30u32, 0x39u32),
        list[1] == (0x41u32, 0x5Au32),
        list[2] == (0x61u32, 0x7Au32),
        list[3].0 >= 0x80,
        c <= '\u{007F}',
    ensures
        in_ranges(list, c as u32) == ('0' <= c <= '9' || 'A' <= c <= 'Z' || 'a' <= c <= 'z'),
{
    lemma_ascii_in(list, 3, c as u32);
}

proof fn lemma_ascii_marks(c: char)
    requires
        c <= '\u{007F}',
    ensures
        !spec_is_nonspacing_mark(c),
{
    reveal(spec_is_nonspacing_mark);
    crate::unicode::marks::lemma_ascending();
    crate::unicode::marks::lemma_first();
    lemma_ascii_in(NONSPACING_MARKS@, 0, c as u32);
}

proof fn lemma_ascii_lower(c: char)
    requires
        c <= '\u{007F}',
    ensures
        in_ranges(LOWERCASE_LETTERS@, c as u32) == ('a' <= c <= 'z'),
{
    crate::unicode::lower::lemma_ascending();
    crate::unicode::lower::lemma_first();
    lemma_ascii_in(LOWERCASE_LETTERS@, 1, c as u32);
}

proof fn lemma_ascii_upper(c: char)
    requires
        c <= '\u{007F}',
    ensures
        in_ranges(UPPERCASE_LETTERS@, c as u32) == ('A' <= c <= 'Z'),
{
    crate::unicode::upper::lemma_ascending();
    crate::unicode::upper::lemma_first();
    lemma_ascii_in(UPPERCASE_LETTERS@, 1, c as u32);
}

proof fn lemma_ascii_title(c: char)
    requires
        c <= '\u{007F}',
    ensures
        !in_ranges(TITLECASE_LETTERS@, c as u32),
{
    crate::unicode::title::lemma_ascending();
    crate::unicode::title::lemma_first();
    lemma_ascii_in(TITLECASE_LETTERS@, 0, c as u32);
}

/// Whether this character can be part of a word.
pub fn allowed_in_word(c: char) -> (allowed: bool)
    ensures
        allowed == spec_allowed_in_word(c),
{
    proof {
        reveal(spec_allowed_in_word);
        crate::unicode::word::lemma_ascending();
    }
    contains(&ALLOWED_IN_WORD, c as u32)
}

/// Whether this character is a nonspacing or enclosing mark.
pub fn is_nonspacing_mark(c: char) -> (mark: bool)
    ensures
        mark == spec_is_nonspacing_mark(c),
{
    proof {
        reveal(spec_is_nonspacing_mark);
        crate::unicode::marks::lemma_ascending();
    }
    contains(&NONSPACING_MARKS, c as u32)
}

/// The general category of this character, where it is that of a cased
/// letter.
pub(crate) fn category_of(c: char) -> (kind: Option<CasedLetterKind>)
    ensures
        kind == cased_category(c),
{
    proof {
        reveal(cased_category);
        crate::unicode::lower::lemma_ascending();
        crate::unicode::upper::lemma_ascending();
        crate::unicode::title::lemma_ascending();
    }
    let code: u32 = c as u32;
    if contains(&LOWERCASE_LETTERS, code) {
        Some(CasedLetterKind::Lowercase)
    } else if contains(&UPPERCASE_LETTERS, code) {
        Some(CasedLetterKind::Uppercase)
    } else if contains(&TITLECASE_LETTERS, code) {
        Some(CasedLetterKind::Titlecase)
    } else {
        None
    }
}

/// The case of this letter, or `None` if it is not a cased letter that can
/// be part of a word.
pub fn letter_casing(c: char) -> (kind: Option<CasedLetterKind>)
    ensures
        kind == spec_letter_casing(c),
{
    if allowed_in_word(c) {
        category_of(c)
    } else {
        None
    }
}

/// Whether the character is a non-Greek titlecase letter.
pub fn is_non_greek_titlecase(c: char) -> (digraph: bool)
    ensures
        digraph == spec_is_non_greek_titlecase(c),
{
    c == '\u{01C5}' || c == '\u{01C8}' || c == '\u{01CB}' || c == '\u{01F2}'
}

/// The entry of `mappings` for `c`, if there is one, by binary search.
fn find_mapping(mappings: &[(char, char, char, char)], c: char) -> (found: Option<(char, char, char, char)>)
    requires
        keys_ascending(mappings@),
    ensures
        match found {
            Some(entry) => mapping_in(mappings@, c) == Some(mapping_chars(entry)),
            None => mapping_in(mappings@, c) is None,
        },
{
    let mut lo: usize = 0;
    let mut hi: usize = mappings.len();
    while lo < hi
        invariant
            keys_ascending(mappings@),
            0 <= lo <= hi <= mappings@.len(),
            forall|k: int| 0 <= k < lo ==> (#[trigger] mappings@[k]).0 < c,
            forall|k: int| hi <= k < mappings@.len() ==> c < (#[trigger] mappings@[k]).0,
        decreases hi - lo,
    {
        let mid: usize = lo + (hi - lo) / 2;
        let entry = mappings[mid];
        if entry.0 < c {
            assert forall|k: int| 0 <= k < mid + 1 implies (#[trigger] mappings@[k]).0 < c by {
                lemma_keys_ordered(mappings@, k, mid as int);
            }
            lo = mid + 1;
        } else if c < entry.0 {
            assert forall|k: int| mid <= k < mappings@.len() implies c < (#[trigger] mappings@[k]).0 by {
                lemma_keys_ordered(mappings@, mid as int, k);
            }
            hi = mid;
        } else {
            proof {
                assert(is_mapping_index(mappings@, c, mid as int));
                let j = choose|j: int| is_mapping_index(mappings@, c, j);
                lemma_key_once(mappings@, j, mid as int);
            }
            return Some(entry);
        }
    }
    assert forall|i: int| !is_mapping_index(mappings@, c, i) by {
        if 0 <= i < mappings@.len() {
            assert(mappings@[i].0 != c);
        }
    }
    None
}

/// Where the keys ascend, no key occurs twice.
proof fn lemma_key_once(mappings: Seq<(char, char, char, char)>, i: int, j: int)
    requires
        keys_ascending(mappings),
        0 <= i < mappings.len(),
        0 <= j < mappings.len(),
        mappings[i].0 == mappings[j].0,
    ensures
        i == j,
{
    if i < j {
        lemma_keys_ordered(mappings, i, j);
    } else if j < i {
        lemma_keys_ordered(mappings, j, i);
    }
}

/// Where the keys ascend from each entry to the next, they ascend from
/// every entry to every later one.
proof fn lemma_keys_ordered(mappings: Seq<(char, char, char, char)>, i: int, j: int)
    requires
        keys_ascending(mappings),
        0 <= i <= j < mappings.len(),
    ensures
        mappings[i].0 <= mappings[j].0,
        i < j ==> mappings[i].0 < mappings[j].0,
    decreases j - i,
{
    if i < j {
        lemma_keys_ordered(mappings, i, j - 1);
        assert(mappings[j - 1].0 < mappings[j].0);
    }
}

/// The entry of `TITLECASE_MAPPINGS` for `c`, if there is one.
fn listed_entry(c: char) -> (found: Option<(char, char, char, char)>)
    ensures
        match found {
            Some(entry) => listed_mapping(c) == Some(mapping_chars(entry)),
            None => listed_mapping(c) is None,
        },
{
    proof {
        reveal(listed_mapping);
        crate::unicode::mappings::lemma_keys_ascending();
    }
    find_mapping(&TITLECASE_MAPPINGS, c)
}

/// The titlecase mapping of this character.
pub fn to_titlecase(c: char) -> (mapping: String)
    ensures
        mapping@ == spec_to_titlecase(c),
{
    let mut mapping = String::new();
    if c <= '\u{007F}' {
        mapping.push(to_ascii_upper(c));
        assert(mapping@ =~= seq![ascii_upper(c)]);
    } else {
        match listed_entry(c) {
            Some(entry) => {
                if entry.1 != '\u{0000}' {
                    mapping.push(entry.1);
                    if entry.2 != '\u{0000}' {
                        mapping.push(entry.2);
                        if entry.3 != '\u{0000}' {
                            mapping.push(entry.3);
                        }
                    }
                }
                assert(mapping@ =~= mapping_chars(entry));
            },
            None => {
                push_upper(&mut mapping, c);
                assert(mapping@ =~= upper_of(c));
            },
        }
    }
    mapping
}

} // verus!
