//! Two-level trees: a set of code points, or a code word for every code
//! point, cut into leaves that a root of bytes points to. Equal leaves are
//! stored once. The leaves of this module have 64 bits; the storing of
//! leaves holds for leaves of any width.

use crate::generate::bits::{bit_len, bits_of, get_bit, CodepointBitArr, CODE_POINTS};
use crate::generate::unicode_data::TableError;
use rustc_hash::FxBuildHasher;
use std::collections::HashMap;
use std::hash::Hash;
use vstd::prelude::*;
use vstd::std_specs::hash::obeys_key_model;

verus! {


#[verifier::external_type_specification]
#[verifier::external_body]
pub struct ExFxBuildHasher(FxBuildHasher);

/// The most leaves that a root of bytes can point to.
pub const MAX_LEAVES: usize = 256;

/// `FxHashMap::default`: a map without entries.
#[verifier::external_body]
pub(crate) fn new_index<K>() -> (index: HashMap<K, usize, FxBuildHasher>)
    ensures
        forall|key: K| !index@.contains_key(key),
{
    HashMap::default()
}

/// `HashMap::get`: the value that the map holds for a key, if it holds
/// one. This is claimed for keys that are hashed and compared as the model
/// of hash maps asks, as the integers are.
#[verifier::external_body]
pub(crate) fn index_of<K: Hash + Eq>(index: &HashMap<K, usize, FxBuildHasher>, key: &K) -> (found:
    Option<usize>)
    requires
        obeys_key_model::<K>(),
    ensures
        found == if index@.contains_key(*key) {
            Some(index@[*key])
        } else {
            None::<usize>
        },
{
    index.get(key).copied()
}

/// `HashMap::insert`: the map holds `value` for `key` afterwards, and for
/// every other key what it held before. This is claimed for keys that are
/// hashed and compared as the model of hash maps asks, as the integers are.
#[verifier::external_body]
pub(crate) fn put_index<K: Hash + Eq>(index: &mut HashMap<K, usize, FxBuildHasher>, key: K, value: usize)
    requires
        obeys_key_model::<K>(),
    ensures
        final(index)@ == old(index)@.insert(key, value),
{
    index.insert(key, value);
}

/// The bit `k` of `word`, counted from the lowest.
pub open spec fn bit_at(word: u64, k: int) -> bool {
    (word >> (k as u64)) & 1 == 1
}

/// The word whose lowest `n` bits are the bits of `bits` from `base` on,
/// and whose other bits are clear.
pub open spec fn packed(bits: Seq<bool>, base: int, n: int) -> u64
    decreases n,
{
    if n <= 0 {
        0
    } else if bits[base + n - 1] {
        packed(bits, base, n - 1) | (1u64 << ((n - 1) as u64))
    } else {
        packed(bits, base, n - 1)
    }
}

/// The words of `bits`, 64 bits each, of which there are `count`.
pub open spec fn chunks_of(bits: Seq<bool>, count: int) -> Seq<u64> {
    Seq::new(count as nat, |k: int| packed(bits, k * 64, 64))
}

proof fn lemma_set_bit(word: u64, j: u64, k: u64)
    requires
        j < 64,
        k < 64,
    ensures
        ((word | (1u64 << j)) >> k) & 1 == if k == j {
            1
        } else {
            (word >> k) & 1
        },
{
    assert(((word | (1u64 << j)) >> k) & 1 == if k == j {
        1
    } else {
        (word >> k) & 1
    }) by (bit_vector)
        requires
            j < 64,
            k < 64,
    ;
}

/// A packed word holds the bits that went into it.
proof fn lemma_packed(bits: Seq<bool>, base: int, n: int)
    requires
        0 <= n <= 64,
    ensures
        forall|k: int| 0 <= k < n ==> #[trigger] bit_at(packed(bits, base, n), k) == bits[base + k],
        forall|k: int| n <= k < 64 ==> !#[trigger] bit_at(packed(bits, base, n), k),
    decreases n,
{
    if n <= 0 {
        assert forall|k: int| 0 <= k < 64 implies !#[trigger] bit_at(0u64, k) by {
            let shift = k as u64;
            assert((0u64 >> shift) & 1 == 0) by (bit_vector);
        }
    } else {
        lemma_packed(bits, base, n - 1);
        let before = packed(bits, base, n - 1);
        let word = packed(bits, base, n);
        assert forall|k: int| 0 <= k < 64 implies #[trigger] bit_at(word, k) == if k < n {
            bits[base + k]
        } else {
            false
        } by {
            if bits[base + n - 1] {
                lemma_set_bit(before, (n - 1) as u64, k as u64);
            }
            assert(bit_at(before, k) == if k < n - 1 {
                bits[base + k]
            } else {
                false
            });
        }
    }
}

/// The 64 bits from `base` on as one word, the first bit lowest.
pub fn chunk_at(arr: &CodepointBitArr, base: usize) -> (word: u64)
    requires
        base + 64 <= CODE_POINTS,
    ensures
        word == packed(bits_of(*arr), base as int, 64),
{
    let len = bit_len(arr);
    let mut word: u64 = 0;
    let mut k: usize = 0;
    while k < 64
        invariant
            0 <= k <= 64,
            base + 64 <= bits_of(*arr).len() == CODE_POINTS,
            word == packed(bits_of(*arr), base as int, k as int),
        decreases 64 - k,
    {
        if get_bit(arr, base + k) {
            word = word | (1u64 << (k as u64));
        }
        k = k + 1;
    }
    word
}

/// The leaves that `chunks` need, in the order in which they first occur,
/// behind the leaves `first` that are there from the start.
pub open spec fn interned<K>(chunks: Seq<K>, first: Seq<K>) -> Seq<K>
    decreases chunks.len(),
{
    if chunks.len() == 0 {
        first
    } else {
        let before = interned(chunks.drop_last(), first);
        if before.contains(chunks.last()) {
            before
        } else {
            before.push(chunks.last())
        }
    }
}

/// More chunks need no fewer leaves.
proof fn lemma_interned_grows<K>(chunks: Seq<K>, first: Seq<K>, n: int)
    requires
        0 <= n <= chunks.len(),
    ensures
        interned(chunks.take(n), first).len() <= interned(chunks, first).len(),
    decreases chunks.len() - n,
{
    if n < chunks.len() {
        lemma_interned_grows(chunks, first, n + 1);
        assert(chunks.take(n + 1).drop_last() =~= chunks.take(n));
    } else {
        assert(chunks.take(n) =~= chunks);
    }
}

/// A root and its leaves hold `chunks`: the root has an entry for every
/// chunk, which points to a leaf that is the chunk.
pub open spec fn tree_holds<K>(root: Seq<u8>, leaves: Seq<K>, chunks: Seq<K>) -> bool {
    &&& root.len() == chunks.len()
    &&& forall|k: int|
        0 <= k < root.len() ==> (#[trigger] root[k]) < leaves.len() && leaves[root[k] as int]
            == chunks[k]
}

/// Stores every chunk as a leaf, equal chunks once, and gives every chunk
/// its entry in the root. The leaves begin with `first`, if one is given.
///
/// Fails if more than `MAX_LEAVES` leaves are needed.
pub fn intern<K: Copy + Hash + Eq>(chunks: &Vec<K>, first: Option<K>) -> (tree: Result<
    (Vec<u8>, Vec<K>),
    TableError,
>)
    requires
        obeys_key_model::<K>(),
    ensures
        ({
            let start = match first {
                Some(leaf) => seq![leaf],
                None => Seq::<K>::empty(),
            };
            match tree {
                Ok((root, leaves)) => {
                    &&& leaves@ == interned(chunks@, start)
                    &&& leaves@.len() <= MAX_LEAVES
                    &&& leaves@.no_duplicates()
                    &&& tree_holds(root@, leaves@, chunks@)
                },
                Err(e) => e == TableError::Leaves && interned(chunks@, start).len() > MAX_LEAVES,
            }
        }),
{
    let ghost start = match first {
        Some(leaf) => seq![leaf],
        None => Seq::<K>::empty(),
    };
    let mut index = new_index();
    let mut leaves: Vec<K> = Vec::new();
    match first {
        Some(leaf) => {
            put_index(&mut index, leaf, 0);
            leaves.push(leaf);
        },
        None => {},
    }
    assert(leaves@ =~= start);
    assert(chunks@.take(0) =~= Seq::<K>::empty());
    assert forall|v: K| index@.contains_key(v) <==> leaves@.contains(v) by {
        if first is Some && v == first->0 {
            assert(leaves@[0] == v);
        }
    }
    let mut root: Vec<u8> = Vec::new();
    let mut i: usize = 0;
    while i < chunks.len()
        invariant
            obeys_key_model::<K>(),
            0 <= i <= chunks@.len(),
            start == match first {
                Some(leaf) => seq![leaf],
                None => Seq::<K>::empty(),
            },
            leaves@ == interned(chunks@.take(i as int), start),
            leaves@.len() <= MAX_LEAVES,
            leaves@.no_duplicates(),
            forall|v: K| index@.contains_key(v) <==> leaves@.contains(v),
            forall|v: K|
                #[trigger] index@.contains_key(v) ==> index@[v] < leaves@.len() && leaves@[index@[v] as int]
                    == v,
            tree_holds(root@, leaves@, chunks@.take(i as int)),
        decreases chunks.len() - i,
    {
        let chunk = chunks[i];
        let ghost before = leaves@;
        let ghost more = chunks@.take(i + 1);
        assert(more.drop_last() =~= chunks@.take(i as int));
        assert(more.last() == chunk);
        let at = match index_of(&index, &chunk) {
            Some(at) => at,
            None => {
                assert(!before.contains(chunk));
                assert(interned(more, start) == before.push(chunk));
                if leaves.len() >= MAX_LEAVES {
                    proof {
                        lemma_interned_grows(chunks@, start, i + 1);
                    }
                    return Err(TableError::Leaves);
                }
                let at = leaves.len();
                put_index(&mut index, chunk, at);
                leaves.push(chunk);
                proof {
                    assert(leaves@ == before.push(chunk));
                    assert forall|v: K| index@.contains_key(v) <==> leaves@.contains(v) by {
                        if v == chunk {
                            assert(leaves@[at as int] == chunk);
                        } else if before.contains(v) {
                            let j = choose|j: int| 0 <= j < before.len() && before[j] == v;
                            assert(leaves@[j] == v);
                        } else if leaves@.contains(v) {
                            let j = choose|j: int| 0 <= j < leaves@.len() && leaves@[j] == v;
                            assert(before[j] == v);
                        }
                    }
                }
                at
            },
        };
        root.push(at as u8);
        proof {
            assert forall|k: int| 0 <= k < root@.len() implies (#[trigger] root@[k]) < leaves@.len()
                && leaves@[root@[k] as int] == more[k] by {
                if k < i {
                    assert(more[k] == chunks@.take(i as int)[k]);
                    assert(leaves@[root@[k] as int] == before[root@[k] as int]);
                }
            }
        }
        i = i + 1;
    }
    assert(chunks@.take(chunks@.len() as int) =~= chunks@);
    Ok((root, leaves))
}

/// The first `count` words of a bit array.
pub fn chunks(arr: &CodepointBitArr, count: usize) -> (words: Vec<u64>)
    requires
        count * 64 <= CODE_POINTS,
    ensures
        words@ == chunks_of(bits_of(*arr), count as int),
{
    let len = bit_len(arr);
    let mut words: Vec<u64> = Vec::new();
    let mut k: usize = 0;
    while k < count
        invariant
            0 <= k <= count,
            count * 64 <= bits_of(*arr).len() == CODE_POINTS,
            words@ == chunks_of(bits_of(*arr), k as int),
        decreases count - k,
    {
        assert(k * 64 + 64 <= count * 64) by (nonlinear_arith)
            requires
                k < count,
        ;
        let word = chunk_at(arr, k * 64);
        words.push(word);
        assert(words@ =~= chunks_of(bits_of(*arr), k + 1));
        k = k + 1;
    }
    words
}

/// The bit that a tree holds for the place `i`.
pub open spec fn tree_bit(root: Seq<u8>, leaves: Seq<u64>, i: int) -> bool {
    bit_at(leaves[root[i / 64] as int], i % 64)
}

/// Builds the tree of the first `len` bits of a bit array, where `len` is
/// a multiple of 64, with `first` as its first leaf.
///
/// Fails if more than `MAX_LEAVES` leaves are needed.
pub fn build_tree(arr: &CodepointBitArr, len: usize, first: u64) -> (tree: Result<
    (Vec<u8>, Vec<u64>),
    TableError,
>)
    requires
        len <= CODE_POINTS,
        len % 64 == 0,
    ensures
        match tree {
            Ok((root, leaves)) => {
                &&& root@.len() * 64 == len
                &&& leaves@ == interned(chunks_of(bits_of(*arr), len as int / 64), seq![first])
                &&& leaves@.len() <= MAX_LEAVES
                &&& leaves@.no_duplicates()
                &&& tree_holds(root@, leaves@, chunks_of(bits_of(*arr), len as int / 64))
                &&& forall|i: int|
                    0 <= i < len ==> #[trigger] tree_bit(root@, leaves@, i) == bits_of(*arr)[i]
            },
            Err(e) => e == TableError::Leaves && interned(
                chunks_of(bits_of(*arr), len as int / 64),
                seq![first],
            ).len() > MAX_LEAVES,
        },
{

    let count: usize = len / 64;
    let words = chunks(arr, count);
    match intern(&words, Some(first)) {
        Ok((root, leaves)) => {
            proof {
                assert forall|i: int| 0 <= i < len implies #[trigger] tree_bit(root@, leaves@, i)
                    == bits_of(*arr)[i] by {
                    let k = i / 64;
                    assert(0 <= k < count);
                    assert(leaves@[root@[k] as int] == words@[k]);
                    lemma_packed(bits_of(*arr), k * 64, 64);
                    assert(bit_at(packed(bits_of(*arr), k * 64, 64), i % 64) == bits_of(*arr)[k
                        * 64 + i % 64]);
                }
            }
            Ok((root, leaves))
        },
        Err(e) => Err(e),
    }
}

/// Reads the bit that a tree holds for the place `i`.
pub fn tree_lookup(root: &Vec<u8>, leaves: &Vec<u64>, i: usize) -> (bit: bool)
    requires
        i / 64 < root@.len(),
        root@[i as int / 64] < leaves@.len(),
    ensures
        bit == tree_bit(root@, leaves@, i as int),
{
    let leaf = leaves[root[i / 64] as usize];
    let shift: u64 = (i % 64) as u64;
    (leaf >> shift) & 1 == 1
}

} // verus!
