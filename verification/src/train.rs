//! Train-Case: every word with a capital first letter, with hyphens between
//! the words.

use crate::text::Text;
use crate::transform::{spec_transform, transform, Pattern, WordCase};
use vstd::prelude::*;

verus! {

/// `s` in Train-Case: every word with a capital first letter, with a
/// hyphen between two words.
pub open spec fn spec_train(s: Seq<char>) -> Seq<char> {
    spec_transform(
        s,
        false,
        Pattern { first: WordCase::Title, rest: WordCase::Title, separator: Some('-') },
    )
}

/// This trait defines a train case conversion.
///
/// In Train-Case, word boundaries are indicated by hyphens and words start
/// with Capital Letters.
pub trait ToTrainCase: Text {
    /// Convert this type to Train-Case.
    fn to_train_case(&self) -> (out: String)
        ensures
            out@ == spec_train(self.text()),
    ;
}

impl ToTrainCase for str {
    fn to_train_case(&self) -> (out: String) {
        transform(
            self,
            false,
            Pattern { first: WordCase::Title, rest: WordCase::Title, separator: Some('-') },
        )
    }
}

/// A text that is to be written in Train-Case.
pub struct AsTrainCase<'a>(pub &'a str);

impl<'a> AsTrainCase<'a> {
    /// The text in Train-Case.
    pub fn to_string(&self) -> (out: String)
        ensures
            out@ == spec_train(self.0@),
    {
        transform(
            self.0,
            false,
            Pattern { first: WordCase::Title, rest: WordCase::Title, separator: Some('-') },
        )
    }
}

} // verus!
