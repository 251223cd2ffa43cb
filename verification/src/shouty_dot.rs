//! SHOUTY.DOT.CASE: every word in uppercase, with dots between the words.

use crate::text::Text;
use crate::transform::{spec_transform, transform, Pattern, WordCase};
use vstd::prelude::*;

verus! {

/// `s` in SHOUTY.DOT.CASE: every word in uppercase, with a dot between two
/// words.
pub open spec fn spec_shouty_dot(s: Seq<char>) -> Seq<char> {
    spec_transform(
        s,
        false,
        Pattern { first: WordCase::Upper, rest: WordCase::Upper, separator: Some('.') },
    )
}

/// This trait defines a shouty dot case conversion.
///
/// In SHOUTY.DOT.CASE, word boundaries are indicated by dots and all words
/// are in uppercase.
pub trait ToShoutyDotCase: Text {
    /// Convert this type to shouty dot case.
    fn to_shouty_dot_case(&self) -> (out: String)
        ensures
            out@ == spec_shouty_dot(self.text()),
    ;
}

impl ToShoutyDotCase for str {
    fn to_shouty_dot_case(&self) -> (out: String) {
        transform(
            self,
            false,
            Pattern { first: WordCase::Upper, rest: WordCase::Upper, separator: Some('.') },
        )
    }
}

/// A text that is to be written in SHOUTY.DOT.CASE.
pub struct AsShoutyDotCase<'a>(pub &'a str);

impl<'a> AsShoutyDotCase<'a> {
    /// The text in SHOUTY.DOT.CASE.
    pub fn to_string(&self) -> (out: String)
        ensures
            out@ == spec_shouty_dot(self.0@),
    {
        transform(
            self.0,
            false,
            Pattern { first: WordCase::Upper, rest: WordCase::Upper, separator: Some('.') },
        )
    }
}

} // verus!
