//! SHOUTY_SNAKE_CASE: every word in uppercase, with underscores between the
//! words.

use crate::text::Text;
use crate::transform::{spec_transform, transform, Pattern, WordCase};
use vstd::prelude::*;

verus! {

/// `s` in SHOUTY_SNAKE_CASE: every word in uppercase, with an underscore
/// between two words.
pub open spec fn spec_shouty_snake(s: Seq<char>, digits: bool) -> Seq<char> {
    spec_transform(
        s,
        digits,
        Pattern { first: WordCase::Upper, rest: WordCase::Upper, separator: Some('_') },
    )
}

/// Converts `s` to SHOUTY_SNAKE_CASE. With `number_starts_word` set, a run of
/// digits is a word of its own.
pub fn to_shouty_snake_case(s: &str, number_starts_word: bool) -> (out: String)
    ensures
        out@ == spec_shouty_snake(s@, number_starts_word),
{
    transform(
        s,
        number_starts_word,
        Pattern { first: WordCase::Upper, rest: WordCase::Upper, separator: Some('_') },
    )
}

/// This trait defines a shouty snake case conversion.
///
/// In SHOUTY_SNAKE_CASE, word boundaries are indicated by underscores and all
/// words are in uppercase.
pub trait ToShoutySnakeCase: Text {
    /// Convert this type to shouty snake case.
    fn to_shouty_snake_case(&self) -> (out: String)
        ensures
            out@ == spec_shouty_snake(self.text(), false),
    ;
}

impl ToShoutySnakeCase for str {
    fn to_shouty_snake_case(&self) -> (out: String) {
        to_shouty_snake_case(self, false)
    }
}

/// Oh heck, ToShoutySnekCase is an alias for ToShoutySnakeCase. See
/// ToShoutySnakeCase for more documentation.
pub trait ToShoutySnekCase: Text {
    /// CONVERT THIS TYPE TO SNEK CASE.
    #[allow(non_snake_case)]
    fn TO_SHOUTY_SNEK_CASE(&self) -> (out: String)
        ensures
            out@ == spec_shouty_snake(self.text(), false),
    ;
}

impl<T: ?Sized + ToShoutySnakeCase> ToShoutySnekCase for T {
    fn TO_SHOUTY_SNEK_CASE(&self) -> (out: String) {
        self.to_shouty_snake_case()
    }
}

/// A text that is to be written in SHOUTY_SNAKE_CASE.
pub struct AsShoutySnakeCase<'a>(pub &'a str);

impl<'a> AsShoutySnakeCase<'a> {
    /// The text in SHOUTY_SNAKE_CASE.
    pub fn to_string(&self) -> (out: String)
        ensures
            out@ == spec_shouty_snake(self.0@, false),
    {
        to_shouty_snake_case(self.0, false)
    }
}

} // verus!
