//! Sets of code points written as ascending lists of inclusive ranges, and
//! membership in such a set by binary search.

use vstd::prelude::*;

verus! {

/// The code point `c` lies in one of the inclusive ranges of `ranges`.
pub open spec fn in_ranges(ranges: Seq<(u32, u32)>, c: u32) -> bool {
    exists|i: int| 0 <= i < ranges.len() && (#[trigger] ranges[i]).0 <= c <= ranges[i].1
}

/// No range is empty.
pub open spec fn each_nonempty(ranges: Seq<(u32, u32)>) -> bool {
    forall|i: int| 0 <= i < ranges.len() ==> (#[trigger] ranges[i]).0 <= ranges[i].1
}

/// Every range ends before the next one begins.
pub open spec fn each_before_next(ranges: Seq<(u32, u32)>) -> bool {
    forall|i: int| 0 <= i < ranges.len() - 1 ==> (#[trigger] ranges[i]).1 < ranges[i + 1].0
}

/// Every range is non-empty and ends before the next one begins.
pub open spec fn ascending(ranges: Seq<(u32, u32)>) -> bool {
    each_nonempty(ranges) && each_before_next(ranges)
}

/// In an ascending list, a range that comes earlier lies wholly below one
/// that comes later.
pub proof fn lemma_ascending_apart(ranges: Seq<(u32, u32)>, i: int, j: int)
    requires
        ascending(ranges),
        0 <= i < j < ranges.len(),
    ensures
        ranges[i].1 < ranges[j].0,
    decreases j - i,
{
    if i + 1 < j {
        lemma_ascending_apart(ranges, i, j - 1);
        assert(ranges[j - 1].0 <= ranges[j - 1].1);
        assert(ranges[j - 1].1 < ranges[j].0);
    }
}

/// In an ascending list, a code point below a range lies in neither that
/// range nor a later one.
pub proof fn lemma_none_from(ranges: Seq<(u32, u32)>, k: int, c: u32)
    requires
        ascending(ranges),
        0 <= k <= ranges.len(),
        k < ranges.len() ==> c < ranges[k].0,
    ensures
        forall|i: int| k <= i < ranges.len() ==> !((#[trigger] ranges[i]).0 <= c <= ranges[i].1),
{
    assert forall|i: int| k <= i < ranges.len() implies !((#[trigger] ranges[i]).0 <= c
        <= ranges[i].1) by {
        if k < i {
            lemma_ascending_apart(ranges, k, i);
            assert(ranges[k].0 <= ranges[k].1);
        }
    }
}

/// Whether `c` lies in one of `ranges`, in a number of steps logarithmic in
/// the length of the list.
pub fn contains(ranges: &[(u32, u32)], c: u32) -> (found: bool)
    requires
        ascending(ranges@),
    ensures
        found == in_ranges(ranges@, c),
{
    let mut lo: usize = 0;
    let mut hi: usize = ranges.len();
    // The answer, if there is one, has its index in `lo..hi`.
    while lo < hi
        invariant
            ascending(ranges@),
            0 <= lo <= hi <= ranges@.len(),
            forall|k: int| 0 <= k < lo ==> (#[trigger] ranges@[k]).1 < c,
            forall|k: int| hi <= k < ranges@.len() ==> c < (#[trigger] ranges@[k]).0,
        decreases hi - lo,
    {
        let mid: usize = lo + (hi - lo) / 2;
        let (first, last) = ranges[mid];
        if last < c {
            assert forall|k: int| 0 <= k < mid + 1 implies (#[trigger] ranges@[k]).1 < c by {
                if k < mid {
                    lemma_ascending_apart(ranges@, k, mid as int);
                }
            }
            lo = mid + 1;
        } else if c < first {
            assert forall|k: int| mid <= k < ranges@.len() implies c < (#[trigger] ranges@[k]).0 by {
                if mid < k {
                    lemma_ascending_apart(ranges@, mid as int, k);
                }
            }
            hi = mid;
        } else {
            assert(ranges@[mid as int].0 <= c <= ranges@[mid as int].1);
            return true;
        }
    }
    false
}

} // verus!
