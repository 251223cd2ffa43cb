//! UPPER CASE: every word in uppercase, with spaces between the words.

use crate::text::Text;
use crate::transform::{spec_transform, transform, Pattern, WordCase};
use vstd::prelude::*;

verus! {

/// `s` in UPPER CASE: every word in uppercase, with a space between two
/// words.
pub open spec fn spec_upper(s: Seq<char>) -> Seq<char> {
    spec_transform(
        s,
        false,
        Pattern { first: WordCase::Upper, rest: WordCase::Upper, separator: Some(' ') },
    )
}

/// This trait defines an upper case conversion.
///
/// In UPPER CASE, word boundaries are indicated by spaces and all words are
/// in uppercase.
pub trait ToUpperCase: Text {
    /// Convert this type to upper case.
    fn to_upper_case(&self) -> (out: String)
        ensures
            out@ == spec_upper(self.text()),
    ;
}

impl ToUpperCase for str {
    fn to_upper_case(&self) -> (out: String) {
        transform(
            self,
            false,
            Pattern { first: WordCase::Upper, rest: WordCase::Upper, separator: Some(' ') },
        )
    }
}

/// A text that is to be written in UPPER CASE.
pub struct AsUpperCase<'a>(pub &'a str);

impl<'a> AsUpperCase<'a> {
    /// The text in UPPER CASE.
    pub fn to_string(&self) -> (out: String)
        ensures
            out@ == spec_upper(self.0@),
    {
        transform(
            self.0,
            false,
            Pattern { first: WordCase::Upper, rest: WordCase::Upper, separator: Some(' ') },
        )
    }
}

} // verus!
