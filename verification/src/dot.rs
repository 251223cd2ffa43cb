//! dot.case: every word in lowercase, with dots between the words.

use crate::text::Text;
use crate::transform::{spec_transform, transform, Pattern, WordCase};
use vstd::prelude::*;

verus! {

/// `s` in dot.case: every word in lowercase, with a dot between two words.
pub open spec fn spec_dot(s: Seq<char>) -> Seq<char> {
    spec_transform(
        s,
        false,
        Pattern { first: WordCase::Lower, rest: WordCase::Lower, separator: Some('.') },
    )
}

/// This trait defines a dot case conversion.
///
/// In dot.case, word boundaries are indicated by dots.
pub trait ToDotCase: Text {
    /// Convert this type to dot case.
    fn to_dot_case(&self) -> (out: String)
        ensures
            out@ == spec_dot(self.text()),
    ;
}

impl ToDotCase for str {
    fn to_dot_case(&self) -> (out: String) {
        transform(
            self,
            false,
            Pattern { first: WordCase::Lower, rest: WordCase::Lower, separator: Some('.') },
        )
    }
}

/// A text that is to be written in dot.case.
pub struct AsDotCase<'a>(pub &'a str);

impl<'a> AsDotCase<'a> {
    /// The text in dot.case.
    pub fn to_string(&self) -> (out: String)
        ensures
            out@ == spec_dot(self.0@),
    {
        transform(
            self.0,
            false,
            Pattern { first: WordCase::Lower, rest: WordCase::Lower, separator: Some('.') },
        )
    }
}

} // verus!
