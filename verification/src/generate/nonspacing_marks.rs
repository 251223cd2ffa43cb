//! The set of the nonspacing and enclosing marks, and its table: a
//! two-level tree with leaves of 128 bits, and a list of ranges.

use crate::generate::allowed_in_word::no_bits;
use crate::generate::bits::{bit_len, bits_of, get_bit, zero_bits, CodepointBitArr, CODE_POINTS};
use crate::generate::table::{
    last_with, lemma_interned_first, lemma_last_with, list_of_ranges, ranges_apart,
    spec_last_with, TREE_LIMIT,
};
use crate::generate::tree::{intern, interned, tree_holds, MAX_LEAVES};
use crate::ranges::{ascending, contains, in_ranges};
use crate::generate::unicode_data::{
    set_by_general_category, spec_set_by_general_category, DataFiles, TableError,
};
use vstd::prelude::*;

verus! {

/// The nonspacing and enclosing marks, as `nonspacing_marks` finds them in
/// `UnicodeData.txt`.
pub open spec fn spec_nonspacing_marks(unicode_data: Seq<char>) -> Result<Seq<bool>, TableError> {
    spec_set_by_general_category(no_bits(), unicode_data, "Mn|Me"@, true)
}

/// `true` for all nonspacing and enclosing marks.
pub fn nonspacing_marks(data: &DataFiles) -> (set: Result<CodepointBitArr, TableError>)
    ensures
        match spec_nonspacing_marks(data.unicode_data@) {
            Ok(bits) => set is Ok && bits_of(set->Ok_0) == bits,
            Err(e) => set is Err && set->Err_0 == e,
        },
{
    let mut arr = zero_bits();
    match set_by_general_category(&mut arr, data, "Mn|Me", true) {
        Ok(()) => Ok(arr),
        Err(e) => Err(e),
    }
}

/// The bit `k` of `word`, counted from the lowest.
pub open spec fn bit_at(word: u128, k: int) -> bool {
    (word >> (k as u128)) & 1 == 1
}

/// The word whose lowest `n` bits are the bits of `bits` from `base` on,
/// and whose other bits are clear.
pub open spec fn packed(bits: Seq<bool>, base: int, n: int) -> u128
    decreases n,
{
    if n <= 0 {
        0
    } else if bits[base + n - 1] {
        packed(bits, base, n - 1) | (1u128 << ((n - 1) as u128))
    } else {
        packed(bits, base, n - 1)
    }
}

/// The words of `bits`, 128 bits each, of which there are `count`.
pub open spec fn chunks_of(bits: Seq<bool>, count: int) -> Seq<u128> {
    Seq::new(count as nat, |k: int| packed(bits, k * 128, 128))
}

proof fn lemma_set_bit(word: u128, j: u128, k: u128)
    requires
        j < 128,
        k < 128,
    ensures
        ((word | (1u128 << j)) >> k) & 1 == if k == j {
            1
        } else {
            (word >> k) & 1
        },
{
    assert(((word | (1u128 << j)) >> k) & 1 == if k == j {
        1
    } else {
        (word >> k) & 1
    }) by (bit_vector)
        requires
            j < 128,
            k < 128,
    ;
}

/// A packed word holds the bits that went into it.
proof fn lemma_packed(bits: Seq<bool>, base: int, n: int)
    requires
        0 <= n <= 128,
    ensures
        forall|k: int| 0 <= k < n ==> #[trigger] bit_at(packed(bits, base, n), k) == bits[base + k],
        forall|k: int| n <= k < 128 ==> !#[trigger] bit_at(packed(bits, base, n), k),
    decreases n,
{
    if n <= 0 {
        assert forall|k: int| 0 <= k < 128 implies !#[trigger] bit_at(0u128, k) by {
            let shift = k as u128;
            assert((0u128 >> shift) & 1 == 0) by (bit_vector);
        }
    } else {
        lemma_packed(bits, base, n - 1);
        let before = packed(bits, base, n - 1);
        let word = packed(bits, base, n);
        assert forall|k: int| 0 <= k < 128 implies #[trigger] bit_at(word, k) == if k < n {
            bits[base + k]
        } else {
            false
        } by {
            if bits[base + n - 1] {
                lemma_set_bit(before, (n - 1) as u128, k as u128);
            }
            assert(bit_at(before, k) == if k < n - 1 {
                bits[base + k]
            } else {
                false
            });
        }
    }
}

/// The 128 bits from `base` on as one word, the first bit lowest.
pub fn chunk_at(arr: &CodepointBitArr, base: usize) -> (word: u128)
    requires
        base + 128 <= CODE_POINTS,
    ensures
        word == packed(bits_of(*arr), base as int, 128),
{
    let len = bit_len(arr);
    let mut word: u128 = 0;
    let mut k: usize = 0;
    while k < 128
        invariant
            0 <= k <= 128,
            base + 128 <= bits_of(*arr).len() == CODE_POINTS,
            word == packed(bits_of(*arr), base as int, k as int),
        decreases 128 - k,
    {
        if get_bit(arr, base + k) {
            word = word | (1u128 << (k as u128));
        }
        k = k + 1;
    }
    word
}

/// The first `count` words of a bit array.
pub fn chunks(arr: &CodepointBitArr, count: usize) -> (words: Vec<u128>)
    requires
        count * 128 <= CODE_POINTS,
    ensures
        words@ == chunks_of(bits_of(*arr), count as int),
{
    let len = bit_len(arr);
    let mut words: Vec<u128> = Vec::new();
    let mut k: usize = 0;
    while k < count
        invariant
            0 <= k <= count,
            count * 128 <= bits_of(*arr).len() == CODE_POINTS,
            words@ == chunks_of(bits_of(*arr), k as int),
        decreases count - k,
    {
        assert(k * 128 + 128 <= count * 128) by (nonlinear_arith)
            requires
                k < count,
        ;
        let word = chunk_at(arr, k * 128);
        words.push(word);
        assert(words@ =~= chunks_of(bits_of(*arr), k + 1));
        k = k + 1;
    }
    words
}

/// The bit that a tree holds for the place `i`.
pub open spec fn tree_bit(root: Seq<u8>, leaves: Seq<u128>, i: int) -> bool {
    bit_at(leaves[root[i / 128] as int], i % 128)
}

/// Builds the tree of the first `len` bits of a bit array, where `len` is
/// a multiple of 128, with `first` as its first leaf.
///
/// Fails if more than `MAX_LEAVES` leaves are needed.
pub fn build_tree(arr: &CodepointBitArr, len: usize, first: u128) -> (tree: Result<
    (Vec<u8>, Vec<u128>),
    TableError,
>)
    requires
        len <= CODE_POINTS,
        len % 128 == 0,
    ensures
        match tree {
            Ok((root, leaves)) => {
                &&& root@.len() * 128 == len
                &&& leaves@ == interned(chunks_of(bits_of(*arr), len as int / 128), seq![first])
                &&& leaves@.len() <= MAX_LEAVES
                &&& leaves@.no_duplicates()
                &&& tree_holds(root@, leaves@, chunks_of(bits_of(*arr), len as int / 128))
                &&& forall|i: int|
                    0 <= i < len ==> #[trigger] tree_bit(root@, leaves@, i) == bits_of(*arr)[i]
            },
            Err(e) => e == TableError::Leaves && interned(
                chunks_of(bits_of(*arr), len as int / 128),
                seq![first],
            ).len() > MAX_LEAVES,
        },
{

    let count: usize = len / 128;
    let words = chunks(arr, count);
    match intern(&words, Some(first)) {
        Ok((root, leaves)) => {
            proof {
                assert forall|i: int| 0 <= i < len implies #[trigger] tree_bit(root@, leaves@, i)
                    == bits_of(*arr)[i] by {
                    let k = i / 128;
                    assert(0 <= k < count);
                    assert(leaves@[root@[k] as int] == words@[k]);
                    lemma_packed(bits_of(*arr), k * 128, 128);
                    assert(bit_at(packed(bits_of(*arr), k * 128, 128), i % 128) == bits_of(*arr)[k
                        * 128 + i % 128]);
                }
            }
            Ok((root, leaves))
        },
        Err(e) => Err(e),
    }
}

/// Reads the bit that a tree holds for the place `i`.
pub fn tree_lookup(root: &Vec<u8>, leaves: &Vec<u128>, i: usize) -> (bit: bool)
    requires
        i / 128 < root@.len(),
        root@[i as int / 128] < leaves@.len(),
    ensures
        bit == tree_bit(root@, leaves@, i as int),
{
    let leaf = leaves[root[i / 128] as usize];
    let shift: u128 = (i % 128) as u128;
    (leaf >> shift) & 1 == 1
}

/// The set of the marks as a table: a two-level tree for the code points
/// up to the last mark below `TREE_LIMIT`, and a list of ranges for the
/// marks beyond it.
pub struct MarksTable {
    /// The first code point that the tree does not cover, a multiple of
    /// 128.
    pub first_cp_not_in_tree: usize,
    /// For every 128 code points that the tree covers, the place of their
    /// leaf.
    pub root: Vec<u8>,
    /// The leaves: one bit for each of 128 code points, the first lowest.
    pub leaves: Vec<u128>,
    /// The ranges of the marks beyond the tree.
    pub late: Vec<(u32, u32)>,
}

impl MarksTable {
    /// The table is one that `contains` can read.
    pub open spec fn wf(&self) -> bool {
        &&& self.first_cp_not_in_tree <= CODE_POINTS
        &&& self.root@.len() * 128 == self.first_cp_not_in_tree
        &&& forall|k: int| 0 <= k < self.root@.len() ==> (#[trigger] self.root@[k]) < self.leaves@.len()
        &&& ascending(self.late@)
    }

    /// Whether the table holds the code point `cp`.
    pub open spec fn spec_contains(&self, cp: int) -> bool {
        if cp < self.first_cp_not_in_tree {
            tree_bit(self.root@, self.leaves@, cp)
        } else {
            in_ranges(self.late@, cp as u32)
        }
    }

    /// Whether the table holds the code point `cp`.
    pub fn contains(&self, cp: u32) -> (held: bool)
        requires
            self.wf(),
            cp < CODE_POINTS,
        ensures
            held == self.spec_contains(cp as int),
    {
        if (cp as usize) < self.first_cp_not_in_tree {
            assert(cp as int / 128 < self.root@.len());
            tree_lookup(&self.root, &self.leaves, cp as usize)
        } else {
            contains(self.late.as_slice(), cp)
        }
    }
}

/// Where the tree of the marks ends: behind the last mark below
/// `TREE_LIMIT`, at a multiple of 128.
pub open spec fn spec_tree_end(bits: Seq<bool>) -> int {
    let last = spec_last_with(bits, TREE_LIMIT as int, true);
    if last < 0 {
        0
    } else {
        (last / 128 + 1) * 128
    }
}

/// The leaves of the tree of the marks: the leaf without a mark, and
/// behind it every other leaf in the order in which the set needs it.
pub open spec fn spec_tree_leaves(bits: Seq<bool>) -> Seq<u128> {
    interned(chunks_of(bits, spec_tree_end(bits) / 128), seq![0u128])
}

/// `table` is the table of the set `bits`.
pub open spec fn table_of(table: MarksTable, bits: Seq<bool>) -> bool {
    &&& table.wf()
    &&& table.first_cp_not_in_tree == spec_tree_end(bits)
    &&& table.leaves@ == spec_tree_leaves(bits)
    &&& tree_holds(table.root@, table.leaves@, chunks_of(bits, spec_tree_end(bits) / 128))
    &&& ranges_apart(table.late@, table.first_cp_not_in_tree as int)
    &&& forall|c: u32|
        table.first_cp_not_in_tree <= c < CODE_POINTS ==> (in_ranges(table.late@, c) <==> bits[c as int])
    &&& forall|cp: int| 0 <= cp < CODE_POINTS ==> #[trigger] table.spec_contains(cp) == bits[cp]
}

/// The table of the marks: hardly a code point beyond the tree is one.
///
/// The tree covers the code points up to the last mark below
/// `TREE_LIMIT`, rounded up to a whole leaf; the marks from there on are
/// listed by their ranges. The first leaf is the one without a mark.
///
/// Fails if the tree needs more than `MAX_LEAVES` leaves, and only then.
pub fn table(marks: &CodepointBitArr) -> (table: Result<MarksTable, TableError>)
    ensures
        match table {
            Ok(table) => table_of(table, bits_of(*marks)) && spec_tree_leaves(bits_of(*marks)).len()
                <= MAX_LEAVES,
            Err(e) => e == TableError::Leaves && spec_tree_leaves(bits_of(*marks)).len()
                > MAX_LEAVES,
        },
{
    let len = bit_len(marks);
    let first: usize = match last_with(marks, TREE_LIMIT, true) {
        Some(last) => (last / 128 + 1) * 128,
        None => 0,
    };
    assert(first == spec_tree_end(bits_of(*marks)));
    let (root, leaves) = match build_tree(marks, first, 0) {
        Ok(tree) => tree,
        Err(e) => {
            return Err(e);
        },
    };
    let late = list_of_ranges(marks, first, true);
    let table = MarksTable { first_cp_not_in_tree: first, root, leaves, late };
    proof {
        assert forall|cp: int| 0 <= cp < CODE_POINTS implies #[trigger] table.spec_contains(cp)
            == bits_of(*marks)[cp] by {
            if cp >= first {
                assert(in_ranges(late@, cp as u32) <==> bits_of(*marks)[cp]);
            } else {
                assert(tree_bit(root@, leaves@, cp) == bits_of(*marks)[cp]);
            }
        }
    }
    Ok(table)
}

/// The tree of the marks begins with the leaf without a mark, and where it
/// ends, no code point below `TREE_LIMIT` is a mark any more.
pub proof fn lemma_tree_shape(bits: Seq<bool>)
    ensures
        0 <= spec_tree_end(bits) <= TREE_LIMIT,
        spec_tree_end(bits) % 128 == 0,
        forall|k: int| spec_tree_end(bits) <= k < TREE_LIMIT ==> !bits[k],
        spec_tree_leaves(bits).len() > 0,
        spec_tree_leaves(bits)[0] == 0,
{
    lemma_last_with(bits, TREE_LIMIT as int, true);
    let words = chunks_of(bits, spec_tree_end(bits) / 128);
    lemma_interned_first(words, seq![0u128]);
    assert(seq![0u128].len() == 1);
    assert(interned(words, seq![0u128])[0] == seq![0u128][0]);
}

} // verus!
