//! kebab-case: every word in lowercase, with hyphens between the words.

use crate::text::Text;
use crate::transform::{spec_transform, transform, Pattern, WordCase};
use vstd::prelude::*;

verus! {

/// `s` in kebab-case: every word in lowercase, with a hyphen between two
/// words.
pub open spec fn spec_kebab(s: Seq<char>, digits: bool) -> Seq<char> {
    spec_transform(
        s,
        digits,
        Pattern { first: WordCase::Lower, rest: WordCase::Lower, separator: Some('-') },
    )
}

/// Converts `s` to kebab-case. With `number_starts_word` set, a run of
/// digits is a word of its own.
pub fn to_kebab(s: &str, number_starts_word: bool) -> (out: String)
    ensures
        out@ == spec_kebab(s@, number_starts_word),
{
    transform(
        s,
        number_starts_word,
        Pattern { first: WordCase::Lower, rest: WordCase::Lower, separator: Some('-') },
    )
}

/// This trait defines a kebab case conversion.
///
/// In kebab-case, word boundaries are indicated by hyphens.
pub trait ToKebabCase: Text {
    /// Convert this type to kebab case.
    fn to_kebab_case(&self) -> (out: String)
        ensures
            out@ == spec_kebab(self.text(), false),
    ;
}

impl ToKebabCase for str {
    fn to_kebab_case(&self) -> (out: String) {
        to_kebab(self, false)
    }
}

/// A text that is to be written in kebab-case.
pub struct AsKebabCase<'a>(pub &'a str);

impl<'a> AsKebabCase<'a> {
    /// The text in kebab-case.
    pub fn to_string(&self) -> (out: String)
        ensures
            out@ == spec_kebab(self.0@, false),
    {
        to_kebab(self.0, false)
    }
}

} // verus!
