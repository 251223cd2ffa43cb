//! compactlowercase: every word in lowercase, and nothing between the
//! words.

use crate::text::Text;
use crate::transform::{spec_transform, transform, Pattern, WordCase};
use vstd::prelude::*;

verus! {

/// `s` in compactlowercase: every word in lowercase, and nothing between
/// two words.
pub open spec fn spec_compact_lower(s: Seq<char>) -> Seq<char> {
    spec_transform(
        s,
        false,
        Pattern { first: WordCase::Lower, rest: WordCase::Lower, separator: None },
    )
}

/// This trait defines a compact lower case conversion.
///
/// In compactlowercase, word boundaries are omitted.
pub trait ToCompactLowercase: Text {
    /// Convert this type to compact lowercase.
    fn to_compact_lowercase(&self) -> (out: String)
        ensures
            out@ == spec_compact_lower(self.text()),
    ;
}

impl ToCompactLowercase for str {
    fn to_compact_lowercase(&self) -> (out: String) {
        transform(
            self,
            false,
            Pattern { first: WordCase::Lower, rest: WordCase::Lower, separator: None },
        )
    }
}

/// A text that is to be written in compactlowercase.
pub struct AsCompactLowercase<'a>(pub &'a str);

impl<'a> AsCompactLowercase<'a> {
    /// The text in compactlowercase.
    pub fn to_string(&self) -> (out: String)
        ensures
            out@ == spec_compact_lower(self.0@),
    {
        transform(
            self.0,
            false,
            Pattern { first: WordCase::Lower, rest: WordCase::Lower, separator: None },
        )
    }
}

} // verus!
