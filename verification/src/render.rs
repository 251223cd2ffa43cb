//! The word renderers: how one word is written in lowercase, in uppercase
//! or with a capital first letter.

use crate::tables::{spec_to_titlecase, to_titlecase};
use crate::text::{
    ascii_lower, ascii_upper, chars_of, lower_of, push_lower, push_upper, to_ascii_lower,
    to_ascii_upper, upper_of,
};
use vstd::prelude::*;
use vstd::string::StringExecFns;

verus! {

/// Greek capital letter sigma.
pub const CAPITAL_SIGMA: char = '\u{03A3}';

/// Greek small letter final sigma.
pub const FINAL_SIGMA: char = '\u{03C2}';

/// The lowercase mapping of a character: of an ASCII character the
/// character itself, or the small letter of a capital letter; of any other
/// character what the standard library maps it to.
pub open spec fn spec_lower(c: char) -> Seq<char> {
    if c <= '\u{007F}' {
        seq![ascii_lower(c)]
    } else {
        lower_of(c)
    }
}

/// The uppercase mapping of a character: of an ASCII character the
/// character itself, or the capital letter of a small letter; of any other
/// character what the standard library maps it to.
pub open spec fn spec_upper(c: char) -> Seq<char> {
    if c <= '\u{007F}' {
        seq![ascii_upper(c)]
    } else {
        upper_of(c)
    }
}

/// Appends the lowercase mapping of a character.
fn write_lower(out: &mut String, c: char)
    ensures
        final(out)@ == old(out)@ + spec_lower(c),
{
    if c <= '\u{007F}' {
        out.push(to_ascii_lower(c));
        assert(out@ =~= old(out)@ + seq![ascii_lower(c)]);
    } else {
        push_lower(out, c);
    }
}

/// Appends the uppercase mapping of a character.
fn write_upper(out: &mut String, c: char)
    ensures
        final(out)@ == old(out)@ + spec_upper(c),
{
    if c <= '\u{007F}' {
        out.push(to_ascii_upper(c));
        assert(out@ =~= old(out)@ + seq![ascii_upper(c)]);
    } else {
        push_upper(out, c);
    }
}

/// The lowercase mappings of the characters of `word`, one after another.
pub open spec fn lower_all(word: Seq<char>) -> Seq<char>
    decreases word.len(),
{
    if word.len() == 0 {
        Seq::empty()
    } else {
        lower_all(word.drop_last()) + spec_lower(word.last())
    }
}

/// The uppercase mappings of the characters of `word`, one after another.
pub open spec fn upper_all(word: Seq<char>) -> Seq<char>
    decreases word.len(),
{
    if word.len() == 0 {
        Seq::empty()
    } else {
        upper_all(word.drop_last()) + spec_upper(word.last())
    }
}

/// `word` in lowercase: every character by its lowercase mapping, but a
/// capital sigma at the very end as a final sigma.
pub open spec fn spec_lowercase(word: Seq<char>) -> Seq<char> {
    if word.len() > 0 && word.last() == CAPITAL_SIGMA {
        lower_all(word.drop_last()).push(FINAL_SIGMA)
    } else {
        lower_all(word)
    }
}

/// `word` in uppercase: every character by its uppercase mapping.
pub open spec fn spec_uppercase(word: Seq<char>) -> Seq<char> {
    upper_all(word)
}

/// `word` with its first character by its titlecase mapping and the rest
/// in lowercase.
pub open spec fn spec_titlecase(word: Seq<char>) -> Seq<char> {
    if word.len() == 0 {
        Seq::empty()
    } else {
        spec_to_titlecase(word[0]) + spec_lowercase(word.skip(1))
    }
}

/// Appends the characters `start..end` of `chars` in lowercase.
pub fn write_lowercase(chars: &[char], start: usize, end: usize, out: &mut String)
    requires
        start <= end <= chars@.len(),
    ensures
        final(out)@ == old(out)@ + spec_lowercase(chars@.subrange(start as int, end as int)),
{
    let ghost word = chars@.subrange(start as int, end as int);
    if start == end {
        assert(out@ =~= old(out)@ + spec_lowercase(word));
        return ;
    }
    let last: usize = end - 1;
    let mut j: usize = start;
    while j < last
        invariant
            start <= j <= last < chars@.len(),
            out@ == old(out)@ + lower_all(chars@.subrange(start as int, j as int)),
        decreases last - j,
    {
        let ghost done = chars@.subrange(start as int, j as int);
        let ghost more = chars@.subrange(start as int, j + 1);
        assert(more.drop_last() =~= done);
        assert(more.last() == chars@[j as int]);
        write_lower(out, chars[j]);
        assert(out@ =~= old(out)@ + lower_all(more));
        j = j + 1;
    }
    let ghost head = chars@.subrange(start as int, last as int);
    assert(word.drop_last() =~= head);
    assert(word.last() == chars@[last as int]);
    if chars[last] == CAPITAL_SIGMA {
        out.push(FINAL_SIGMA);
        assert(out@ =~= old(out)@ + lower_all(head).push(FINAL_SIGMA));
    } else {
        write_lower(out, chars[last]);
        assert(out@ =~= old(out)@ + lower_all(word));
    }
}

/// Appends the characters `start..end` of `chars` in uppercase.
pub fn write_uppercase(chars: &[char], start: usize, end: usize, out: &mut String)
    requires
        start <= end <= chars@.len(),
    ensures
        final(out)@ == old(out)@ + spec_uppercase(chars@.subrange(start as int, end as int)),
{
    let mut j: usize = start;
    assert(out@ =~= old(out)@ + upper_all(chars@.subrange(start as int, start as int)));
    while j < end
        invariant
            start <= j <= end <= chars@.len(),
            out@ == old(out)@ + upper_all(chars@.subrange(start as int, j as int)),
        decreases end - j,
    {
        let ghost done = chars@.subrange(start as int, j as int);
        let ghost more = chars@.subrange(start as int, j + 1);
        assert(more.drop_last() =~= done);
        assert(more.last() == chars@[j as int]);
        write_upper(out, chars[j]);
        assert(out@ =~= old(out)@ + upper_all(more));
        j = j + 1;
    }
}

/// Appends the characters `start..end` of `chars`, the first by its
/// titlecase mapping and the rest in lowercase.
pub fn write_titlecase(chars: &[char], start: usize, end: usize, out: &mut String)
    requires
        start <= end <= chars@.len(),
    ensures
        final(out)@ == old(out)@ + spec_titlecase(chars@.subrange(start as int, end as int)),
{
    let ghost word = chars@.subrange(start as int, end as int);
    if start == end {
        assert(out@ =~= old(out)@ + spec_titlecase(word));
        return ;
    }
    let first = to_titlecase(chars[start]);
    out.append(first.as_str());
    assert(word[0] == chars@[start as int]);
    assert(word.skip(1) =~= chars@.subrange(start + 1, end as int));
    write_lowercase(chars, start + 1, end, out);
    assert(out@ =~= old(out)@ + spec_titlecase(word));
}

/// Appends `s` in lowercase: every character by its lowercase mapping, but
/// a capital sigma at the very end as a final sigma.
pub fn lowercase(s: &str, out: &mut String)
    ensures
        final(out)@ == old(out)@ + spec_lowercase(s@),
{
    let chars = chars_of(s);
    assert(chars@.subrange(0, chars@.len() as int) =~= s@);
    write_lowercase(&chars, 0, chars.len(), out);
}

/// Appends `s` in uppercase: every character by its uppercase mapping.
pub fn uppercase(s: &str, out: &mut String)
    ensures
        final(out)@ == old(out)@ + spec_uppercase(s@),
{
    let chars = chars_of(s);
    assert(chars@.subrange(0, chars@.len() as int) =~= s@);
    write_uppercase(&chars, 0, chars.len(), out);
}

/// Appends `s` with a capital first letter: the first character by its
/// titlecase mapping, the rest in lowercase.
pub fn titlecase(s: &str, out: &mut String)
    ensures
        final(out)@ == old(out)@ + spec_titlecase(s@),
{
    let chars = chars_of(s);
    assert(chars@.subrange(0, chars@.len() as int) =~= s@);
    write_titlecase(&chars, 0, chars.len(), out);
}

} // verus!
