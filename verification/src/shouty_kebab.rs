//! SHOUTY-KEBAB-CASE: every word in uppercase, with hyphens between the words.

use crate::text::Text;
use crate::transform::{spec_transform, transform, Pattern, WordCase};
use vstd::prelude::*;

verus! {

/// `s` in SHOUTY-KEBAB-CASE: every word in uppercase, with a hyphen
/// between two words.
pub open spec fn spec_shouty_kebab(s: Seq<char>, digits: bool) -> Seq<char> {
    spec_transform(
        s,
        digits,
        Pattern { first: WordCase::Upper, rest: WordCase::Upper, separator: Some('-') },
    )
}

/// Converts `s` to SHOUTY-KEBAB-CASE. With `number_starts_word` set, a run of
/// digits is a word of its own.
pub fn to_shouty_kebab_case(s: &str, number_starts_word: bool) -> (out: String)
    ensures
        out@ == spec_shouty_kebab(s@, number_starts_word),
{
    transform(
        s,
        number_starts_word,
        Pattern { first: WordCase::Upper, rest: WordCase::Upper, separator: Some('-') },
    )
}

/// This trait defines a shouty kebab case conversion.
///
/// In SHOUTY-KEBAB-CASE, word boundaries are indicated by hyphens and all
/// words are in uppercase.
pub trait ToShoutyKebabCase: Text {
    /// Convert this type to shouty kebab case.
    fn to_shouty_kebab_case(&self) -> (out: String)
        ensures
            out@ == spec_shouty_kebab(self.text(), false),
    ;
}

impl ToShoutyKebabCase for str {
    fn to_shouty_kebab_case(&self) -> (out: String) {
        to_shouty_kebab_case(self, false)
    }
}

/// A text that is to be written in SHOUTY-KEBAB-CASE.
pub struct AsShoutyKebabCase<'a>(pub &'a str);

impl<'a> AsShoutyKebabCase<'a> {
    /// The text in SHOUTY-KEBAB-CASE.
    pub fn to_string(&self) -> (out: String)
        ensures
            out@ == spec_shouty_kebab(self.0@, false),
    {
        to_shouty_kebab_case(self.0, false)
    }
}

} // verus!
