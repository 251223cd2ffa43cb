//! A set of code points as a table: a two-level tree for the code points
//! up to the last one that stands out against the background, and a list
//! of ranges for the few that stand out beyond it.

use crate::generate::bits::{bit_len, bits_of, get_bit, CodepointBitArr, CODE_POINTS};
use crate::generate::tree::{
    build_tree, chunks_of, interned, tree_bit, tree_holds, tree_lookup, MAX_LEAVES,
};
use crate::generate::unicode_data::TableError;
use crate::ranges::{ascending, contains, in_ranges};
use vstd::prelude::*;

verus! {

/// Up to where a tree may reach: the end of the planes in which nearly all
/// characters lie.
pub const TREE_LIMIT: usize = 0x40000;

/// The greatest place below `limit` whose bit is `value`, or -1 if there is
/// none.
pub open spec fn spec_last_with(bits: Seq<bool>, limit: int, value: bool) -> int
    decreases limit,
{
    if limit <= 0 {
        -1
    } else if bits[limit - 1] == value {
        limit - 1
    } else {
        spec_last_with(bits, limit - 1, value)
    }
}

/// The greatest place below `limit` whose bit is `value`, if there is one.
pub fn last_with(arr: &CodepointBitArr, limit: usize, value: bool) -> (last: Option<usize>)
    requires
        limit <= CODE_POINTS,
    ensures
        match last {
            Some(i) => i == spec_last_with(bits_of(*arr), limit as int, value) && i < limit
                && bits_of(*arr)[i as int] == value,
            None => spec_last_with(bits_of(*arr), limit as int, value) == -1,
        },
        forall|k: int|
            spec_last_with(bits_of(*arr), limit as int, value) < k < limit ==> bits_of(*arr)[k]
                != value,
{
    let len = bit_len(arr);
    let mut i: usize = limit;
    while i > 0
        invariant
            0 <= i <= limit <= bits_of(*arr).len(),
            forall|k: int| i <= k < limit ==> bits_of(*arr)[k] != value,
            spec_last_with(bits_of(*arr), i as int, value) == spec_last_with(
                bits_of(*arr),
                limit as int,
                value,
            ),
        decreases i,
    {
        i = i - 1;
        if get_bit(arr, i) == value {
            return Some(i);
        }
    }
    None
}

/// The ranges are within `from..CODE_POINTS`, and between two of them lies
/// a code point that is in neither.
pub open spec fn ranges_apart(ranges: Seq<(u32, u32)>, from: int) -> bool {
    &&& ascending(ranges)
    &&& forall|i: int|
        0 <= i < ranges.len() ==> from <= (#[trigger] ranges[i]).0 && ranges[i].1 < CODE_POINTS
    &&& forall|i: int| 0 <= i < ranges.len() - 1 ==> (#[trigger] ranges[i]).1 + 1 < ranges[i + 1].0
}

/// A range that lies behind all of `ranges` adds its code points to theirs.
proof fn lemma_push_range(ranges: Seq<(u32, u32)>, range: (u32, u32), c: u32)
    ensures
        in_ranges(ranges.push(range), c) <==> in_ranges(ranges, c) || range.0 <= c <= range.1,
{
    let longer = ranges.push(range);
    if in_ranges(ranges, c) {
        let i = choose|i: int| 0 <= i < ranges.len() && (#[trigger] ranges[i]).0 <= c <= ranges[i].1;
        assert(longer[i] == ranges[i]);
    }
    if range.0 <= c <= range.1 {
        assert(longer[ranges.len() as int] == range);
    }
    if in_ranges(longer, c) {
        let i = choose|i: int| 0 <= i < longer.len() && (#[trigger] longer[i]).0 <= c <= longer[i].1;
        if i < ranges.len() {
            assert(ranges[i] == longer[i]);
        }
    }
}

/// The code points from `from` on whose bit is `value`, as the list of the
/// ranges that they make up, in ascending order.
pub fn list_of_ranges(arr: &CodepointBitArr, from: usize, value: bool) -> (ranges: Vec<(u32, u32)>)
    requires
        from <= CODE_POINTS,
    ensures
        ranges_apart(ranges@, from as int),
        forall|c: u32|
            from <= c < CODE_POINTS ==> (in_ranges(ranges@, c) <==> bits_of(*arr)[c as int]
                == value),
{
    let len = bit_len(arr);
    let mut ranges: Vec<(u32, u32)> = Vec::new();
    // Where the run of code points that is being read began.
    let mut run: Option<u32> = None;
    let mut cp: usize = from;
    while cp < len
        invariant
            from <= cp <= len == CODE_POINTS == bits_of(*arr).len(),
            ranges_apart(ranges@, from as int),
            match run {
                Some(lo) => from <= lo < cp && (forall|k: int|
                    lo <= k < cp ==> bits_of(*arr)[k] == value) && forall|i: int|
                    0 <= i < ranges@.len() ==> (#[trigger] ranges@[i]).1 + 1 < lo,
                None => forall|i: int| 0 <= i < ranges@.len() ==> (#[trigger] ranges@[i]).1 + 1 < cp,
            },
            forall|c: u32|
                from <= c < cp ==> ((in_ranges(ranges@, c) || (run is Some && run->0 <= c))
                    <==> bits_of(*arr)[c as int] == value),
        decreases len - cp,
    {
        let bit = get_bit(arr, cp) == value;
        match run {
            Some(lo) => {
                if !bit {
                    let ghost before = ranges@;
                    ranges.push((lo, (cp - 1) as u32));
                    run = None;
                    proof {
                        assert forall|c: u32| from <= c < cp + 1 implies ((in_ranges(ranges@, c) || (
                        run is Some && run->0 <= c)) <==> bits_of(*arr)[c as int] == value) by {
                            lemma_push_range(before, (lo, (cp - 1) as u32), c);
                        }
                        assert forall|i: int| 0 <= i < ranges@.len() - 1 implies (
                        #[trigger] ranges@[i]).1 + 1 < ranges@[i + 1].0 by {
                            if i + 1 < before.len() {
                                assert(before[i].1 + 1 < before[i + 1].0);
                            }
                        }
                    }
                }
            },
            None => {
                if bit {
                    run = Some(cp as u32);
                }
            },
        }
        cp = cp + 1;
    }
    match run {
        Some(lo) => {
            let ghost before = ranges@;
            ranges.push((lo, (len - 1) as u32));
            proof {
                assert forall|c: u32| from <= c < CODE_POINTS implies (in_ranges(ranges@, c)
                    <==> bits_of(*arr)[c as int] == value) by {
                    lemma_push_range(before, (lo, (len - 1) as u32), c);
                }
                assert forall|i: int| 0 <= i < ranges@.len() - 1 implies (#[trigger] ranges@[i]).1
                    + 1 < ranges@[i + 1].0 by {
                    if i + 1 < before.len() {
                        assert(before[i].1 + 1 < before[i + 1].0);
                    }
                }
            }
        },
        None => {},
    }
    ranges
}

/// A set of code points as a table.
pub struct BitTable {
    /// Whether a code point belongs to the set unless the table says
    /// otherwise: the code points beyond the tree do, but for those in
    /// `late`, exactly if this is set.
    pub background: bool,
    /// The first code point that the tree does not cover, a multiple of
    /// 64.
    pub first_cp_not_in_tree: usize,
    /// For every 64 code points that the tree covers, the place of their
    /// leaf.
    pub root: Vec<u8>,
    /// The leaves: one bit for each of 64 code points, the first lowest.
    pub leaves: Vec<u64>,
    /// The ranges of the code points beyond the tree that stand out
    /// against the background.
    pub late: Vec<(u32, u32)>,
}

impl BitTable {
    /// The table is one that `contains` can read.
    pub open spec fn wf(&self) -> bool {
        &&& self.first_cp_not_in_tree <= CODE_POINTS
        &&& self.root@.len() * 64 == self.first_cp_not_in_tree
        &&& forall|k: int| 0 <= k < self.root@.len() ==> (#[trigger] self.root@[k]) < self.leaves@.len()
        &&& ascending(self.late@)
    }

    /// Whether the table holds the code point `cp`.
    pub open spec fn spec_contains(&self, cp: int) -> bool {
        if cp < self.first_cp_not_in_tree {
            tree_bit(self.root@, self.leaves@, cp)
        } else {
            in_ranges(self.late@, cp as u32) != self.background
        }
    }

    /// Whether the table holds the code point `cp`.
    pub fn contains(&self, cp: u32) -> (held: bool)
        requires
            self.wf(),
            cp < CODE_POINTS,
        ensures
            held == self.spec_contains(cp as int),
    {
        if (cp as usize) < self.first_cp_not_in_tree {
            assert(cp as int / 64 < self.root@.len());
            tree_lookup(&self.root, &self.leaves, cp as usize)
        } else {
            contains(self.late.as_slice(), cp) != self.background
        }
    }
}

/// The leaf whose bits all are `background`.
pub open spec fn plain_leaf(background: bool) -> u64 {
    if background {
        u64::MAX
    } else {
        0
    }
}

/// Where the tree of a set ends: behind the last code point below
/// `TREE_LIMIT` that differs from `background`, at a multiple of 64.
pub open spec fn spec_tree_end(bits: Seq<bool>, background: bool) -> int {
    let last = spec_last_with(bits, TREE_LIMIT as int, !background);
    if last < 0 {
        0
    } else {
        (last / 64 + 1) * 64
    }
}

/// The leaves of the tree of a set: the plain leaf of the background, and
/// behind it every other leaf in the order in which the set needs it.
pub open spec fn spec_tree_leaves(bits: Seq<bool>, background: bool) -> Seq<u64> {
    interned(chunks_of(bits, spec_tree_end(bits, background) / 64), seq![plain_leaf(background)])
}

/// `table` is the table of the set `bits` against `background`.
pub open spec fn table_of(table: BitTable, bits: Seq<bool>, background: bool) -> bool {
    &&& table.wf()
    &&& table.background == background
    &&& table.first_cp_not_in_tree == spec_tree_end(bits, background)
    &&& table.leaves@ == spec_tree_leaves(bits, background)
    &&& tree_holds(table.root@, table.leaves@, chunks_of(bits, spec_tree_end(bits, background) / 64))
    &&& ranges_apart(table.late@, table.first_cp_not_in_tree as int)
    &&& forall|c: u32|
        table.first_cp_not_in_tree <= c < CODE_POINTS ==> (in_ranges(table.late@, c) <==> bits[c as int]
            != background)
    &&& forall|cp: int| 0 <= cp < CODE_POINTS ==> #[trigger] table.spec_contains(cp) == bits[cp]
}

/// The table of the set of code points whose bits in `arr` are set.
///
/// The tree covers the code points up to the last one below `TREE_LIMIT`
/// that differs from `background`, rounded up to a whole leaf; the code
/// points from there on that differ from `background` are listed by their
/// ranges. The first leaf is the plain one of the background.
///
/// Fails if the tree needs more than `MAX_LEAVES` leaves, and only then.
pub fn bit_table(arr: &CodepointBitArr, background: bool) -> (table: Result<BitTable, TableError>)
    ensures
        match table {
            Ok(table) => table_of(table, bits_of(*arr), background) && spec_tree_leaves(
                bits_of(*arr),
                background,
            ).len() <= MAX_LEAVES,
            Err(e) => e == TableError::Leaves && spec_tree_leaves(bits_of(*arr), background).len()
                > MAX_LEAVES,
        },
{
    let len = bit_len(arr);
    let first: usize = match last_with(arr, TREE_LIMIT, !background) {
        Some(last) => (last / 64 + 1) * 64,
        None => 0,
    };
    assert(first == spec_tree_end(bits_of(*arr), background));
    let filler: u64 = if background {
        u64::MAX
    } else {
        0
    };
    let (root, leaves) = match build_tree(arr, first, filler) {
        Ok(tree) => tree,
        Err(e) => {
            return Err(e);
        },
    };
    let late = list_of_ranges(arr, first, !background);
    let table = BitTable { background, first_cp_not_in_tree: first, root, leaves, late };
    proof {
        assert forall|cp: int| 0 <= cp < CODE_POINTS implies #[trigger] table.spec_contains(cp)
            == bits_of(*arr)[cp] by {
            if cp >= first {
                assert(in_ranges(late@, cp as u32) <==> bits_of(*arr)[cp] == !background);
            } else {
                assert(tree_bit(root@, leaves@, cp) == bits_of(*arr)[cp]);
            }
        }
    }
    Ok(table)
}

/// The tree of a set begins with the plain leaf of its background, and
/// where it ends, no code point below `TREE_LIMIT` differs from the
/// background any more.
pub proof fn lemma_tree_shape(bits: Seq<bool>, background: bool)
    ensures
        0 <= spec_tree_end(bits, background) <= TREE_LIMIT,
        spec_tree_end(bits, background) % 64 == 0,
        forall|k: int|
            spec_tree_end(bits, background) <= k < TREE_LIMIT ==> bits[k] == background,
        spec_tree_leaves(bits, background).len() > 0,
        spec_tree_leaves(bits, background)[0] == plain_leaf(background),
{
    lemma_last_with(bits, TREE_LIMIT as int, !background);
    let words = chunks_of(bits, spec_tree_end(bits, background) / 64);
    lemma_interned_first(words, seq![plain_leaf(background)]);
    assert(seq![plain_leaf(background)].len() == 1);
    assert(interned(words, seq![plain_leaf(background)])[0] == seq![plain_leaf(background)][0]);
}

/// Behind the last place with the bit `value`, no place below `limit` has
/// it.
pub proof fn lemma_last_with(bits: Seq<bool>, limit: int, value: bool)
    ensures
        -1 <= spec_last_with(bits, limit, value),
        spec_last_with(bits, limit, value) < limit || limit <= 0,
        forall|k: int| spec_last_with(bits, limit, value) < k < limit ==> bits[k] != value,
    decreases limit,
{
    if limit > 0 && bits[limit - 1] != value {
        lemma_last_with(bits, limit - 1, value);
    }
}

/// The leaves that were there from the start stay where they are.
pub proof fn lemma_interned_first<K>(chunks: Seq<K>, first: Seq<K>)
    ensures
        interned(chunks, first).len() >= first.len(),
        forall|k: int|
            0 <= k < first.len() ==> interned(chunks, first)[k] == first[k],
    decreases chunks.len(),
{
    if chunks.len() > 0 {
        lemma_interned_first(chunks.drop_last(), first);
    }
}

} // verus!
