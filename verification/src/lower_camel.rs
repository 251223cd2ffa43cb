//! lowerCamelCase: the first word in lowercase, every later word with a
//! capital first letter, and nothing between the words.

use crate::text::Text;
use crate::transform::{spec_transform, transform, Pattern, WordCase};
use vstd::prelude::*;

verus! {

/// `s` in lowerCamelCase: the first word in lowercase, every later word
/// with a capital first letter, and nothing between two words.
pub open spec fn spec_lower_camel(s: Seq<char>, digits: bool) -> Seq<char> {
    spec_transform(
        s,
        digits,
        Pattern { first: WordCase::Lower, rest: WordCase::Title, separator: None },
    )
}

/// Converts `s` to lowerCamelCase. With `number_starts_word` set, a run of
/// digits is a word of its own.
pub fn to_lower_camel_case(s: &str, number_starts_word: bool) -> (out: String)
    ensures
        out@ == spec_lower_camel(s@, number_starts_word),
{
    transform(
        s,
        number_starts_word,
        Pattern { first: WordCase::Lower, rest: WordCase::Title, separator: None },
    )
}

/// This trait defines a lower camel case conversion.
///
/// In lowerCamelCase, word boundaries are indicated by capital letters,
/// excepting the first word.
pub trait ToLowerCamelCase: Text {
    /// Convert this type to lower camel case.
    fn to_lower_camel_case(&self) -> (out: String)
        ensures
            out@ == spec_lower_camel(self.text(), false),
    ;
}

impl ToLowerCamelCase for str {
    fn to_lower_camel_case(&self) -> (out: String) {
        to_lower_camel_case(self, false)
    }
}

/// A text that is to be written in lowerCamelCase.
pub struct AsLowerCamelCase<'a>(pub &'a str);

impl<'a> AsLowerCamelCase<'a> {
    /// The text in lowerCamelCase.
    pub fn to_string(&self) -> (out: String)
        ensures
            out@ == spec_lower_camel(self.0@, false),
    {
        to_lower_camel_case(self.0, false)
    }
}

} // verus!
