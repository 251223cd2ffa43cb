//! UpperCamelCase: every word with a capital first letter, and nothing
//! between the words.

use crate::text::Text;
use crate::transform::{spec_transform, transform, Pattern, WordCase};
use vstd::prelude::*;

verus! {

/// `s` in UpperCamelCase: every word with a capital first letter, and
/// nothing between two words.
pub open spec fn spec_upper_camel(s: Seq<char>, digits: bool) -> Seq<char> {
    spec_transform(
        s,
        digits,
        Pattern { first: WordCase::Title, rest: WordCase::Title, separator: None },
    )
}

/// Converts `s` to UpperCamelCase. With `number_starts_word` set, a run of
/// digits is a word of its own.
pub fn to_upper_camel_case(s: &str, number_starts_word: bool) -> (out: String)
    ensures
        out@ == spec_upper_camel(s@, number_starts_word),
{
    transform(
        s,
        number_starts_word,
        Pattern { first: WordCase::Title, rest: WordCase::Title, separator: None },
    )
}

/// This trait defines an upper camel case conversion.
///
/// In UpperCamelCase, word boundaries are indicated by capital letters,
/// including the first word.
pub trait ToUpperCamelCase: Text {
    /// Convert this type to upper camel case.
    fn to_upper_camel_case(&self) -> (out: String)
        ensures
            out@ == spec_upper_camel(self.text(), false),
    ;
}

impl ToUpperCamelCase for str {
    fn to_upper_camel_case(&self) -> (out: String) {
        to_upper_camel_case(self, false)
    }
}

/// ToPascalCase is an alias for ToUpperCamelCase. See ToUpperCamelCase for
/// more documentation.
pub trait ToPascalCase: Text {
    /// Convert this type to upper camel case.
    fn to_pascal_case(&self) -> (out: String)
        ensures
            out@ == spec_upper_camel(self.text(), false),
    ;
}

impl<T: ?Sized + ToUpperCamelCase> ToPascalCase for T {
    fn to_pascal_case(&self) -> (out: String) {
        self.to_upper_camel_case()
    }
}

/// A text that is to be written in UpperCamelCase.
pub struct AsUpperCamelCase<'a>(pub &'a str);

impl<'a> AsUpperCamelCase<'a> {
    /// The text in UpperCamelCase.
    pub fn to_string(&self) -> (out: String)
        ensures
            out@ == spec_upper_camel(self.0@, false),
    {
        to_upper_camel_case(self.0, false)
    }
}

} // verus!
