//! mid sentence case: every word in lowercase, with spaces between the
//! words.

use crate::text::Text;
use crate::transform::{spec_transform, transform, Pattern, WordCase};
use vstd::prelude::*;

verus! {

/// `s` in mid sentence case: every word in lowercase, with a space between
/// two words.
pub open spec fn spec_mid_sentence(s: Seq<char>) -> Seq<char> {
    spec_transform(
        s,
        false,
        Pattern { first: WordCase::Lower, rest: WordCase::Lower, separator: Some(' ') },
    )
}

/// This trait defines a mid sentence case conversion.
///
/// In mid sentence case, word boundaries are indicated by spaces, and every
/// word is lowercased.
pub trait ToMidSentenceCase: Text {
    /// Convert this type to mid sentence case.
    fn to_mid_sentence_case(&self) -> (out: String)
        ensures
            out@ == spec_mid_sentence(self.text()),
    ;
}

impl ToMidSentenceCase for str {
    fn to_mid_sentence_case(&self) -> (out: String) {
        transform(
            self,
            false,
            Pattern { first: WordCase::Lower, rest: WordCase::Lower, separator: Some(' ') },
        )
    }
}

/// A text that is to be written in mid sentence case.
pub struct AsMidSentenceCase<'a>(pub &'a str);

impl<'a> AsMidSentenceCase<'a> {
    /// The text in mid sentence case.
    pub fn to_string(&self) -> (out: String)
        ensures
            out@ == spec_mid_sentence(self.0@),
    {
        transform(
            self.0,
            false,
            Pattern { first: WordCase::Lower, rest: WordCase::Lower, separator: Some(' ') },
        )
    }
}

} // verus!
