//! Title Case: every word with a capital first letter, with spaces between
//! the words.

use crate::text::Text;
use crate::transform::{spec_transform, transform, Pattern, WordCase};
use vstd::prelude::*;

verus! {

/// `s` in Title Case: every word with a capital first letter, with a space
/// between two words.
pub open spec fn spec_title(s: Seq<char>, digits: bool) -> Seq<char> {
    spec_transform(
        s,
        digits,
        Pattern { first: WordCase::Title, rest: WordCase::Title, separator: Some(' ') },
    )
}

/// Converts `s` to Title Case. With `number_starts_word` set, a run of
/// digits is a word of its own.
pub fn to_title_case(s: &str, number_starts_word: bool) -> (out: String)
    ensures
        out@ == spec_title(s@, number_starts_word),
{
    transform(
        s,
        number_starts_word,
        Pattern { first: WordCase::Title, rest: WordCase::Title, separator: Some(' ') },
    )
}

/// This trait defines a title case conversion.
///
/// In Title Case, word boundaries are indicated by spaces, and every word is
/// capitalized.
pub trait ToTitleCase: Text {
    /// Convert this type to title case.
    fn to_title_case(&self) -> (out: String)
        ensures
            out@ == spec_title(self.text(), false),
    ;
}

impl ToTitleCase for str {
    fn to_title_case(&self) -> (out: String) {
        to_title_case(self, false)
    }
}

/// A text that is to be written in Title Case.
pub struct AsTitleCase<'a>(pub &'a str);

impl<'a> AsTitleCase<'a> {
    /// The text in Title Case.
    pub fn to_string(&self) -> (out: String)
        ensures
            out@ == spec_title(self.0@, false),
    {
        to_title_case(self.0, false)
    }
}

} // verus!
