//! Human case: the first word with a capital first letter, every later word
//! in lowercase, with spaces between the words.

use crate::text::Text;
use crate::transform::{spec_transform, transform, Pattern, WordCase};
use vstd::prelude::*;

verus! {

/// `s` in Human case: the first word with a capital first letter, every
/// later word in lowercase, with a space between two words.
pub open spec fn spec_human(s: Seq<char>) -> Seq<char> {
    spec_transform(
        s,
        false,
        Pattern { first: WordCase::Title, rest: WordCase::Lower, separator: Some(' ') },
    )
}

/// This trait defines a human case conversion.
///
/// In Human case, word boundaries are indicated by spaces, and only the
/// first word is capitalized.
pub trait ToHumanCase: Text {
    /// Convert this type to human case.
    fn to_human_case(&self) -> (out: String)
        ensures
            out@ == spec_human(self.text()),
    ;
}

impl ToHumanCase for str {
    fn to_human_case(&self) -> (out: String) {
        transform(
            self,
            false,
            Pattern { first: WordCase::Title, rest: WordCase::Lower, separator: Some(' ') },
        )
    }
}

/// A text that is to be written in Human case.
pub struct AsHumanCase<'a>(pub &'a str);

impl<'a> AsHumanCase<'a> {
    /// The text in Human case.
    pub fn to_string(&self) -> (out: String)
        ensures
            out@ == spec_human(self.0@),
    {
        transform(
            self.0,
            false,
            Pattern { first: WordCase::Title, rest: WordCase::Lower, separator: Some(' ') },
        )
    }
}

} // verus!
