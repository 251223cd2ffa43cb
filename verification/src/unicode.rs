//! Character data of the Unicode standard, as ascending lists of inclusive
//! ranges of code points. Each list is proved to be in ascending order, which
//! is what a binary search through it needs.

use vstd::prelude::*;

pub mod lower;
pub mod mappings;
pub mod marks;
pub mod title;
pub mod upper;
pub mod word;

verus! {

/// The version of the Unicode standard that the lists of this module hold.
pub const UNICODE_VERSION: (u8, u8, u8) = (16, 0, 0);

} // verus!
