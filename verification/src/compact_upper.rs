//! COMPACTUPPERCASE: every word in uppercase, and nothing between the
//! words.

use crate::text::Text;
use crate::transform::{spec_transform, transform, Pattern, WordCase};
use vstd::prelude::*;

verus! {

/// `s` in COMPACTUPPERCASE: every word in uppercase, and nothing between
/// two words.
pub open spec fn spec_compact_upper(s: Seq<char>) -> Seq<char> {
    spec_transform(
        s,
        false,
        Pattern { first: WordCase::Upper, rest: WordCase::Upper, separator: None },
    )
}

/// This trait defines a compact upper case conversion.
///
/// In COMPACTUPPERCASE, word boundaries are omitted.
pub trait ToCompactUppercase: Text {
    /// Convert this type to compact uppercase.
    fn to_compact_uppercase(&self) -> (out: String)
        ensures
            out@ == spec_compact_upper(self.text()),
    ;
}

impl ToCompactUppercase for str {
    fn to_compact_uppercase(&self) -> (out: String) {
        transform(
            self,
            false,
            Pattern { first: WordCase::Upper, rest: WordCase::Upper, separator: None },
        )
    }
}

/// A text that is to be written in COMPACTUPPERCASE.
pub struct AsCompactUppercase<'a>(pub &'a str);

impl<'a> AsCompactUppercase<'a> {
    /// The text in COMPACTUPPERCASE.
    pub fn to_string(&self) -> (out: String)
        ensures
            out@ == spec_compact_upper(self.0@),
    {
        transform(
            self.0,
            false,
            Pattern { first: WordCase::Upper, rest: WordCase::Upper, separator: None },
        )
    }
}

} // verus!
