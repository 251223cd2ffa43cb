//! The bridge between Rust's strings and the sequences of characters that
//! the contracts of this crate speak of, and the case mappings that the
//! standard library provides for single characters and for whole strings.

use vstd::prelude::*;

verus! {

/// The lowercase mapping of a character: what `char::to_lowercase` yields.
pub uninterp spec fn lower_of(c: char) -> Seq<char>;

/// The uppercase mapping of a character: what `char::to_uppercase` yields.
pub uninterp spec fn upper_of(c: char) -> Seq<char>;

/// The lowercase form of a whole string: what `str::to_lowercase` returns.
pub uninterp spec fn lowercase_of_text(s: Seq<char>) -> Seq<char>;

/// The uppercase form of a whole string: what `str::to_uppercase` returns.
pub uninterp spec fn uppercase_of_text(s: Seq<char>) -> Seq<char>;

/// A value that stands for a text, such as a string slice.
pub trait Text {
    /// The characters of the text.
    spec fn text(&self) -> Seq<char>;
}

impl Text for str {
    open spec fn text(&self) -> Seq<char> {
        self@
    }
}

/// `String::push` appends the one character to the end of the string.
pub assume_specification[ String::push ](s: &mut String, c: char)
    ensures
        final(s)@ == old(s)@.push(c),
;

/// Appends to `out` the characters that `char::to_lowercase` yields for `c`,
/// in the order in which it yields them. Nothing is claimed of which
/// characters these are, beyond their name `lower_of(c)`.
#[verifier::external_body]
pub(crate) fn push_lower(out: &mut String, c: char)
    ensures
        final(out)@ == old(out)@ + lower_of(c),
{
    out.extend(c.to_lowercase());
}

/// Appends to `out` the characters that `char::to_uppercase` yields for `c`,
/// in the order in which it yields them. Nothing is claimed of which
/// characters these are, beyond their name `upper_of(c)`.
#[verifier::external_body]
pub(crate) fn push_upper(out: &mut String, c: char)
    ensures
        final(out)@ == old(out)@ + upper_of(c),
{
    out.extend(c.to_uppercase());
}

/// `str::to_lowercase`, whose result is named `lowercase_of_text`.
#[verifier::external_body]
pub(crate) fn text_to_lowercase(s: &str) -> (r: String)
    ensures
        r@ == lowercase_of_text(s@),
{
    s.to_lowercase()
}

/// `str::to_uppercase`, whose result is named `uppercase_of_text`.
#[verifier::external_body]
pub(crate) fn text_to_uppercase(s: &str) -> (r: String)
    ensures
        r@ == uppercase_of_text(s@),
{
    s.to_uppercase()
}

/// `str::eq`: two string slices are equal when they hold the same
/// characters in the same order.
#[verifier::external_body]
pub(crate) fn same_text(a: &str, b: &str) -> (same: bool)
    ensures
        same == (a@ == b@),
{
    a == b
}

/// The form in which `{:?}` writes a string: in double quotes, with escapes.
pub uninterp spec fn debug_form(s: Seq<char>) -> Seq<char>;

/// What `format!` gives for `{:?}` and a string slice, whose result is named
/// `debug_form`.
#[verifier::external_body]
pub(crate) fn debug_quoted(s: &str) -> (r: String)
    ensures
        r@ == debug_form(s@),
{
    format!("{:?}", s)
}

/// The characters of a string, in order.
pub fn chars_of(s: &str) -> (chars: Vec<char>)
    ensures
        chars@ == s@,
{
    let mut chars: Vec<char> = Vec::new();
    for c in it: s.chars()
        invariant
            it.seq() == s@,
            chars@ == it.seq().take(it.index() as int),
    {
        chars.push(c);
    }
    chars
}

/// The uppercase form of an ASCII letter; any other character is unchanged.
pub open spec fn ascii_upper(c: char) -> char {
    if 'a' <= c <= 'z' {
        ((c as u32 - 32) as char)
    } else {
        c
    }
}

/// The lowercase form of an ASCII letter; any other character is unchanged.
pub open spec fn ascii_lower(c: char) -> char {
    if 'A' <= c <= 'Z' {
        ((c as u32 + 32) as char)
    } else {
        c
    }
}

/// The lowercase form of an ASCII letter; any other character is returned
/// unchanged.
pub fn to_ascii_lower(c: char) -> (r: char)
    ensures
        r == ascii_lower(c),
{
    if 'A' <= c && c <= 'Z' {
        let b: u8 = c as u8;
        (b + 32) as char
    } else {
        c
    }
}

/// The uppercase form of an ASCII letter; any other character is returned
/// unchanged.
pub fn to_ascii_upper(c: char) -> (r: char)
    ensures
        r == ascii_upper(c),
{
    if 'a' <= c && c <= 'z' {
        let b: u8 = c as u8;
        (b - 32) as char
    } else {
        c
    }
}

} // verus!
