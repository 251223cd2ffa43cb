//! snake_case: every word in lowercase, with underscores between the words.

use crate::text::Text;
use crate::transform::{spec_transform, transform, Pattern, WordCase};
use vstd::prelude::*;

verus! {

/// `s` in snake_case: every word in lowercase, with an underscore between
/// two words.
pub open spec fn spec_snake(s: Seq<char>, digits: bool) -> Seq<char> {
    spec_transform(
        s,
        digits,
        Pattern { first: WordCase::Lower, rest: WordCase::Lower, separator: Some('_') },
    )
}

/// Converts `s` to snake_case. With `number_starts_word` set, a run of
/// digits is a word of its own.
pub fn to_snake_case(s: &str, number_starts_word: bool) -> (out: String)
    ensures
        out@ == spec_snake(s@, number_starts_word),
{
    transform(
        s,
        number_starts_word,
        Pattern { first: WordCase::Lower, rest: WordCase::Lower, separator: Some('_') },
    )
}

/// This trait defines a snake case conversion.
///
/// In snake_case, word boundaries are indicated by underscores.
pub trait SnakeCase: Text {
    /// Convert this type to snake case.
    fn to_snake_case(&self) -> (out: String)
        ensures
            out@ == spec_snake(self.text(), false),
    ;
}

impl SnakeCase for str {
    fn to_snake_case(&self) -> (out: String) {
        to_snake_case(self, false)
    }
}

/// Oh heck, SnekCase is an alias for SnakeCase. See SnakeCase for
/// more documentation.
pub trait SnekCase: Text {
    /// Convert this type to snek case.
    fn to_snek_case(&self) -> (out: String)
        ensures
            out@ == spec_snake(self.text(), false),
    ;
}

impl<T: ?Sized + SnakeCase> SnekCase for T {
    fn to_snek_case(&self) -> (out: String) {
        self.to_snake_case()
    }
}

/// A text that is to be written in snake_case.
pub struct AsSnakeCase<'a>(pub &'a str);

impl<'a> AsSnakeCase<'a> {
    /// The text in snake_case.
    pub fn to_string(&self) -> (out: String)
        ensures
            out@ == spec_snake(self.0@, false),
    {
        to_snake_case(self.0, false)
    }
}

} // verus!
