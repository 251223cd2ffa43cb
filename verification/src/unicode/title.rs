//! The titlecase letters.

use crate::ranges::{ascending, each_before_next, each_nonempty};
use vstd::prelude::*;

verus! {

/// The titlecase letters (`Lt`).
pub const TITLECASE_LETTERS: [(u32, u32); 10] = [
    (0x01C5, 0x01C5), (0x01C8, 0x01C8), (0x01CB, 0x01CB), (0x01F2, 0x01F2),
    (0x1F88, 0x1F8F), (0x1F98, 0x1F9F), (0x1FA8, 0x1FAF), (0x1FBC, 0x1FBC),
    (0x1FCC, 0x1FCC), (0x1FFC, 0x1FFC),
];

proof fn lemma_nonempty()
    ensures
        each_nonempty(TITLECASE_LETTERS@),
{
}

proof fn lemma_apart()
    ensures
        each_before_next(TITLECASE_LETTERS@),
{
}

/// The ranges of `TITLECASE_LETTERS` are non-empty and in ascending order.
pub proof fn lemma_ascending()
    ensures
        ascending(TITLECASE_LETTERS@),
{
    lemma_nonempty();
    lemma_apart();
}

/// How `TITLECASE_LETTERS` begins.
pub proof fn lemma_first()
    ensures
        TITLECASE_LETTERS@.len() == 10,
        TITLECASE_LETTERS@[0] == (0x01C5u32, 0x01C5u32),
{
}

} // verus!
