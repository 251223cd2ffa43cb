//! CamelCase, the older name of UpperCamelCase.

use crate::text::Text;
use crate::upper_camel::{spec_upper_camel, to_upper_camel_case};
use vstd::prelude::*;

verus! {

/// This trait defines a camel case conversion.
///
/// In CamelCase, word boundaries are indicated by capital letters, including
/// the first word.
pub trait CamelCase: Text {
    /// Convert this type to camel case.
    fn to_camel_case(&self) -> (out: String)
        ensures
            out@ == spec_upper_camel(self.text(), false),
    ;
}

impl CamelCase for str {
    fn to_camel_case(&self) -> (out: String) {
        to_upper_camel_case(self, false)
    }
}

} // verus!
