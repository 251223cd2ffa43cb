//! The case of the cased letters, and its table: a two-level tree whose
//! leaves hold two bits for each of 64 code points.

use crate::generate::allowed_in_word::no_bits;
use crate::generate::bits::{
    and_bits, bit_len, bits_of, get_bit, zero_bits, CodepointBitArr, CODE_POINTS,
};
use crate::generate::table::last_with;
use crate::generate::tree::{intern, interned, tree_holds, MAX_LEAVES};
use crate::generate::unicode_data::{
    set_by_general_category, set_by_prop, spec_set_by_general_category, spec_set_by_prop,
    DataFiles, TableError,
};
use crate::tables::CasedLetterKind;
use vstd::prelude::*;

verus! {

/// How many code points a leaf of the tree covers, with two bits each.
pub const ENTRIES_PER_LEAF: usize = 64;

/// The bits of `bits` that are set in `mask` too.
pub open spec fn within(bits: Seq<bool>, mask: Seq<bool>) -> Seq<bool> {
    Seq::new(bits.len(), |i: int| bits[i] && mask[i])
}

/// The code points of the general category `category` that can be part of
/// a word.
pub open spec fn spec_cased_set(unicode_data: Seq<char>, category: Seq<char>, word: Seq<bool>) -> Result<
    Seq<bool>,
    TableError,
> {
    match spec_set_by_general_category(no_bits(), unicode_data, category, true) {
        Err(e) => Err(e),
        Ok(bits) => Ok(within(bits, word)),
    }
}

/// The lowercase, the uppercase and the titlecase letters that can be part
/// of a word, and of the titlecase letters those that are not Greek.
pub open spec fn spec_cased_sets(unicode_data: Seq<char>, scripts: Seq<char>, word: Seq<bool>) -> Result<
    (Seq<bool>, Seq<bool>, Seq<bool>, Seq<bool>),
    TableError,
> {
    match spec_cased_set(unicode_data, "Ll"@, word) {
        Err(e) => Err(e),
        Ok(lower) => match spec_cased_set(unicode_data, "Lu"@, word) {
            Err(e) => Err(e),
            Ok(upper) => match spec_cased_set(unicode_data, "Lt"@, word) {
                Err(e) => Err(e),
                Ok(title) => match spec_set_by_prop(title, scripts, "Greek"@, false) {
                    Err(e) => Err(e),
                    Ok(non_greek) => Ok((lower, upper, title, non_greek)),
                },
            },
        },
    }
}

/// The case of the code point `cp`, given the sets of the lowercase, the
/// uppercase and the titlecase letters.
pub open spec fn casing_at(lower: Seq<bool>, upper: Seq<bool>, title: Seq<bool>, cp: int) -> Option<
    CasedLetterKind,
> {
    if title[cp] {
        Some(CasedLetterKind::Titlecase)
    } else if upper[cp] {
        Some(CasedLetterKind::Uppercase)
    } else if lower[cp] {
        Some(CasedLetterKind::Lowercase)
    } else {
        None
    }
}

/// `casings` holds the case of every code point up to the last cased
/// letter.
pub open spec fn casings_of(
    casings: Seq<Option<CasedLetterKind>>,
    lower: Seq<bool>,
    upper: Seq<bool>,
    title: Seq<bool>,
) -> bool {
    &&& casings.len() <= CODE_POINTS
    &&& forall|cp: int| 0 <= cp < casings.len() ==> #[trigger] casings[cp] == casing_at(lower, upper, title, cp)
    &&& forall|cp: int|
        casings.len() <= cp < CODE_POINTS ==> #[trigger] casing_at(lower, upper, title, cp) is None
    &&& casings.len() > 0 ==> casings.last() is Some
}

/// `list` holds the code points of `set`, in ascending order.
pub open spec fn lists(list: Seq<u32>, set: Seq<bool>) -> bool {
    &&& forall|i: int, j: int| 0 <= i < j < list.len() ==> list[i] < list[j]
    &&& forall|i: int| 0 <= i < list.len() ==> (#[trigger] list[i]) < CODE_POINTS && set[list[i] as int]
    &&& forall|cp: u32| cp < CODE_POINTS && set[cp as int] ==> list.contains(cp)
}

/// The set of the cased letters of one general category that can be part
/// of a word.
fn cased_set(data: &DataFiles, category: &str, word_components: &CodepointBitArr) -> (set: Result<
    CodepointBitArr,
    TableError,
>)
    ensures
        match spec_cased_set(data.unicode_data@, category@, bits_of(*word_components)) {
            Ok(bits) => set is Ok && bits_of(set->Ok_0) == bits && bits.len() == CODE_POINTS,
            Err(e) => set is Err && set->Err_0 == e,
        },
{
    let mut arr = zero_bits();
    match set_by_general_category(&mut arr, data, category, true) {
        Ok(()) => {},
        Err(e) => {
            return Err(e);
        },
    }
    let len = bit_len(&arr);
    let ghost before = bits_of(arr);
    and_bits(&mut arr, word_components);
    assert(bits_of(arr) =~= within(before, bits_of(*word_components)));
    Ok(arr)
}

/// The later of two places.
fn later(a: Option<usize>, b: Option<usize>) -> (last: Option<usize>)
    ensures
        last == match (a, b) {
            (Some(x), Some(y)) => Some(if x >= y {
                x
            } else {
                y
            }),
            (Some(x), None) => Some(x),
            (None, b) => b,
        },
{
    match (a, b) {
        (Some(x), Some(y)) => Some(if x >= y {
            x
        } else {
            y
        }),
        (Some(x), None) => Some(x),
        (None, b) => b,
    }
}

/// The code points of a set, in ascending order.
fn code_points_of(set: &CodepointBitArr) -> (list: Vec<u32>)
    ensures
        lists(list@, bits_of(*set)),
{
    let len = bit_len(set);
    let mut list: Vec<u32> = Vec::new();
    let mut cp: usize = 0;
    while cp < len
        invariant
            0 <= cp <= len == CODE_POINTS == bits_of(*set).len(),
            forall|i: int, j: int| 0 <= i < j < list@.len() ==> list@[i] < list@[j],
            forall|i: int| 0 <= i < list@.len() ==> (#[trigger] list@[i]) < cp && bits_of(*set)[list@[i] as int],
            forall|c: u32| c < cp && bits_of(*set)[c as int] ==> list@.contains(c),
        decreases len - cp,
    {
        if get_bit(set, cp) {
            let ghost before = list@;
            list.push(cp as u32);
            proof {
                assert forall|c: u32| c < cp + 1 && bits_of(*set)[c as int] implies list@.contains(
                    c,
                ) by {
                    if c < cp {
                        let i = choose|i: int| 0 <= i < before.len() && before[i] == c;
                        assert(list@[i] == c);
                    } else {
                        assert(list@[before.len() as int] == c);
                    }
                }
            }
        }
        cp = cp + 1;
    }
    list
}

/// The case of every code point up to the last cased letter that can be
/// part of a word, and the titlecase letters that are not Greek, in
/// ascending order.
pub fn letter_casing(data: &DataFiles, word_components: &CodepointBitArr) -> (found: Result<
    (Vec<Option<CasedLetterKind>>, Vec<u32>),
    TableError,
>)
    ensures
        match spec_cased_sets(data.unicode_data@, data.scripts@, bits_of(*word_components)) {
            Ok((lower, upper, title, other)) => found is Ok && casings_of(
                found->Ok_0.0@,
                lower,
                upper,
                title,
            ) && lists(found->Ok_0.1@, other),
            Err(e) => found is Err && found->Err_0 == e,
        },
{
    let lowercase = match cased_set(data, "Ll", word_components) {
        Ok(set) => set,
        Err(e) => {
            return Err(e);
        },
    };
    let uppercase = match cased_set(data, "Lu", word_components) {
        Ok(set) => set,
        Err(e) => {
            return Err(e);
        },
    };
    let mut titlecase = match cased_set(data, "Lt", word_components) {
        Ok(set) => set,
        Err(e) => {
            return Err(e);
        },
    };
    let ghost lower = bits_of(lowercase);
    let ghost upper = bits_of(uppercase);
    let ghost title = bits_of(titlecase);
    let last = later(
        later(last_with(&lowercase, CODE_POINTS, true), last_with(&uppercase, CODE_POINTS, true)),
        last_with(&titlecase, CODE_POINTS, true),
    );
    let count: usize = match last {
        Some(last) => last + 1,
        None => 0,
    };
    let mut casing_vec: Vec<Option<CasedLetterKind>> = Vec::new();
    let mut cp: usize = 0;
    while cp < count
        invariant
            0 <= cp <= count <= CODE_POINTS,
            lower == bits_of(lowercase),
            upper == bits_of(uppercase),
            title == bits_of(titlecase),
            lower.len() == CODE_POINTS,
            upper.len() == CODE_POINTS,
            title.len() == CODE_POINTS,
            casing_vec@.len() == cp,
            forall|k: int| 0 <= k < cp ==> #[trigger] casing_vec@[k] == casing_at(lower, upper, title, k),
        decreases count - cp,
    {
        let kind = if get_bit(&titlecase, cp) {
            Some(CasedLetterKind::Titlecase)
        } else if get_bit(&uppercase, cp) {
            Some(CasedLetterKind::Uppercase)
        } else if get_bit(&lowercase, cp) {
            Some(CasedLetterKind::Lowercase)
        } else {
            None
        };
        casing_vec.push(kind);
        cp = cp + 1;
    }
    assert(casings_of(casing_vec@, lower, upper, title));
    match set_by_prop(&mut titlecase, data.scripts.as_str(), "Greek", false) {
        Ok(()) => {},
        Err(e) => {
            return Err(e);
        },
    }
    let non_greek = code_points_of(&titlecase);
    Ok((casing_vec, non_greek))
}

/// The two bits that stand for a case.
pub open spec fn spec_code(kind: Option<CasedLetterKind>) -> u128 {
    match kind {
        None => 0,
        Some(CasedLetterKind::Lowercase) => 1,
        Some(CasedLetterKind::Uppercase) => 2,
        Some(CasedLetterKind::Titlecase) => 3,
    }
}

/// The two bits that stand for a case.
pub fn code(kind: Option<CasedLetterKind>) -> (bits: u128)
    ensures
        bits == spec_code(kind),
{
    match kind {
        None => 0,
        Some(CasedLetterKind::Lowercase) => 1,
        Some(CasedLetterKind::Uppercase) => 2,
        Some(CasedLetterKind::Titlecase) => 3,
    }
}

/// The case that two bits stand for.
pub fn kind_of(bits: u128) -> (kind: Option<CasedLetterKind>)
    requires
        bits < 4,
    ensures
        spec_code(kind) == bits,
{
    if bits == 0 {
        None
    } else if bits == 1 {
        Some(CasedLetterKind::Lowercase)
    } else if bits == 2 {
        Some(CasedLetterKind::Uppercase)
    } else {
        Some(CasedLetterKind::Titlecase)
    }
}

/// The two bits at the place `k` of a leaf.
pub open spec fn code_at(word: u128, k: int) -> u128 {
    (word >> ((2 * k) as u128)) & 3
}

/// The leaf that holds the codes of the `n` cases from `base` on, the
/// first lowest, and nothing else.
pub open spec fn packed_codes(casings: Seq<Option<CasedLetterKind>>, base: int, n: int) -> u128
    decreases n,
{
    if n <= 0 {
        0
    } else {
        packed_codes(casings, base, n - 1) | (spec_code(casings[base + n - 1]) << ((2 * (n
            - 1)) as u128))
    }
}

/// The leaves of `casings`, of which there are `count`.
pub open spec fn code_chunks(casings: Seq<Option<CasedLetterKind>>, count: int) -> Seq<u128> {
    Seq::new(count as nat, |k: int| packed_codes(casings, k * 64, 64))
}

proof fn lemma_put_code(word: u128, code: u128, j: u128, k: u128)
    requires
        j < 64,
        k < 64,
        code < 4,
        j == 0 || word >> (2 * j) == 0,
        j == 0 ==> word == 0,
    ensures
        ((word | (code << (2 * j))) >> (2 * k)) & 3 == if k == j {
            code
        } else if k < j {
            (word >> (2 * k)) & 3
        } else {
            0
        },
        j < 63 ==> (word | (code << (2 * j))) >> (2 * (j + 1)) == 0,
{
    assert(((word | (code << (2 * j))) >> (2 * k)) & 3 == if k == j {
        code
    } else if k < j {
        (word >> (2 * k)) & 3
    } else {
        0
    }) by (bit_vector)
        requires
            j < 64,
            k < 64,
            code < 4,
            j == 0 || word >> (2 * j) == 0,
            j == 0 ==> word == 0,
    ;
    assert(j < 63 ==> (word | (code << (2 * j))) >> (2 * (j + 1)) == 0) by (bit_vector)
        requires
            j < 64,
            code < 4,
            j == 0 || word >> (2 * j) == 0,
            j == 0 ==> word == 0,
    ;
}

/// A packed leaf holds the codes that went into it.
proof fn lemma_packed_codes(casings: Seq<Option<CasedLetterKind>>, base: int, n: int)
    requires
        0 <= n <= 64,
    ensures
        forall|k: int|
            0 <= k < n ==> #[trigger] code_at(packed_codes(casings, base, n), k) == spec_code(
                casings[base + k],
            ),
        forall|k: int| n <= k < 64 ==> #[trigger] code_at(packed_codes(casings, base, n), k) == 0,
        0 < n < 64 ==> packed_codes(casings, base, n) >> ((2 * n) as u128) == 0,
        n == 0 ==> packed_codes(casings, base, n) == 0,
    decreases n,
{
    if n <= 0 {
        assert forall|k: int| 0 <= k < 64 implies #[trigger] code_at(0u128, k) == 0 by {
            let shift = (2 * k) as u128;
            assert((0u128 >> shift) & 3 == 0) by (bit_vector);
        }
    } else {
        lemma_packed_codes(casings, base, n - 1);
        let before = packed_codes(casings, base, n - 1);
        let code = spec_code(casings[base + n - 1]);
        let word = packed_codes(casings, base, n);
        let j = (n - 1) as u128;
        assert(word == before | (code << (2 * j) as u128)) by {
            assert((2 * (n - 1)) as u128 == (2 * j) as u128);
        }
        assert forall|k: int| 0 <= k < 64 implies #[trigger] code_at(word, k) == if k < n {
            spec_code(casings[base + k])
        } else {
            0
        } by {
            lemma_put_code(before, code, j, k as u128);
            assert(code_at(before, k) == if k < n - 1 {
                spec_code(casings[base + k])
            } else {
                0
            });
            assert(((2 * k) as u128) == 2 * (k as u128));
        }
        if n < 64 {
            lemma_put_code(before, code, j, 0);
            assert(((2 * n) as u128) == 2 * (j + 1));
        }
    }
}

/// The codes of the 64 cases from `base` on as one leaf, the first lowest.
pub fn code_chunk_at(casings: &Vec<Option<CasedLetterKind>>, base: usize) -> (word: u128)
    requires
        base + 64 <= casings@.len(),
    ensures
        word == packed_codes(casings@, base as int, 64),
{
    let len = casings.len();
    let mut word: u128 = 0;
    let mut k: usize = 0;
    while k < 64
        invariant
            0 <= k <= 64,
            base + 64 <= casings@.len() == len,
            word == packed_codes(casings@, base as int, k as int),
        decreases 64 - k,
    {
        let bits = code(casings[base + k]);
        assert(2 * k < 128);
        word = word | (bits << ((2 * k) as u128));
        k = k + 1;
    }
    word
}

/// The case that a tree holds for the place `i`.
pub open spec fn tree_code(root: Seq<u8>, leaves: Seq<u128>, i: int) -> u128 {
    code_at(leaves[root[i / 64] as int], i % 64)
}

/// The leaves of the tree of a list of cases, in the order in which the
/// list needs them.
pub open spec fn spec_casing_leaves(casings: Seq<Option<CasedLetterKind>>) -> Seq<u128> {
    interned(code_chunks(casings, casings.len() as int / 64), Seq::empty())
}

/// Builds the tree of a list of cases, whose length is a multiple of 64.
///
/// Fails if more than `MAX_LEAVES` leaves are needed, and only then.
pub fn build_casing_tree(casings_list: &Vec<Option<CasedLetterKind>>) -> (tree: Result<
    (Vec<u8>, Vec<u128>),
    TableError,
>)
    requires
        casings_list@.len() % 64 == 0,
    ensures
        match tree {
            Ok((root, leaves)) => {
                &&& root@.len() * 64 == casings_list@.len()
                &&& leaves@ == spec_casing_leaves(casings_list@)
                &&& leaves@.len() <= MAX_LEAVES
                &&& leaves@.no_duplicates()
                &&& tree_holds(root@, leaves@, code_chunks(casings_list@, casings_list@.len() as int / 64))
                &&& forall|i: int|
                    0 <= i < casings_list@.len() ==> #[trigger] tree_code(root@, leaves@, i)
                        == spec_code(casings_list@[i])
            },
            Err(e) => e == TableError::Leaves && spec_casing_leaves(casings_list@).len()
                > MAX_LEAVES,
        },
{
    let len = casings_list.len();
    let count: usize = len / 64;
    let mut words: Vec<u128> = Vec::new();
    let mut k: usize = 0;
    while k < count
        invariant
            0 <= k <= count,
            count * 64 == casings_list@.len() == len,
            words@ == code_chunks(casings_list@, k as int),
        decreases count - k,
    {
        assert(k * 64 + 64 <= count * 64) by (nonlinear_arith)
            requires
                k < count,
        ;
        let word = code_chunk_at(casings_list, k * 64);
        words.push(word);
        assert(words@ =~= code_chunks(casings_list@, k + 1));
        k = k + 1;
    }
    match intern(&words, None) {
        Ok((root, leaves)) => {
            proof {
                assert forall|i: int| 0 <= i < casings_list@.len() implies #[trigger] tree_code(
                    root@,
                    leaves@,
                    i,
                ) == spec_code(casings_list@[i]) by {
                    let k = i / 64;
                    assert(0 <= k < count);
                    assert(leaves@[root@[k] as int] == words@[k]);
                    lemma_packed_codes(casings_list@, k * 64, 64);
                    assert(code_at(packed_codes(casings_list@, k * 64, 64), i % 64) == spec_code(
                        casings_list@[k * 64 + i % 64],
                    ));
                }
            }
            Ok((root, leaves))
        },
        Err(e) => Err(e),
    }
}

/// The case of every code point as a table: a two-level tree for the code
/// points up to the last cased letter, and the list of the titlecase
/// letters that are not Greek.
pub struct CasingTable {
    /// The first code point that the tree does not cover, a multiple of
    /// 64.
    pub first_cp_not_in_tree: usize,
    /// For every 64 code points that the tree covers, the place of their
    /// leaf.
    pub root: Vec<u8>,
    /// The leaves: two bits for each of 64 code points, the first lowest.
    pub leaves: Vec<u128>,
    /// The titlecase letters that are not Greek, in ascending order.
    pub non_greek: Vec<u32>,
}

impl CasingTable {
    /// The table is one that `letter_casing` can read.
    pub open spec fn wf(&self) -> bool {
        &&& self.root@.len() * 64 == self.first_cp_not_in_tree
        &&& forall|k: int| 0 <= k < self.root@.len() ==> (#[trigger] self.root@[k]) < self.leaves@.len()
    }

    /// The code of the case that the table holds for the code point `cp`.
    pub open spec fn spec_code_of(&self, cp: int) -> u128 {
        if cp < self.first_cp_not_in_tree {
            tree_code(self.root@, self.leaves@, cp)
        } else {
            0
        }
    }

    /// The case that the table holds for the code point `cp`.
    pub fn letter_casing(&self, cp: u32) -> (kind: Option<CasedLetterKind>)
        requires
            self.wf(),
        ensures
            spec_code(kind) == self.spec_code_of(cp as int),
    {
        if (cp as usize) < self.first_cp_not_in_tree {
            assert(cp as int / 64 < self.root@.len());
            let leaf = self.leaves[self.root[cp as usize / 64] as usize];
            let shift: u128 = (2 * (cp as usize % 64)) as u128;
            let bits = (leaf >> shift) & 3;
            assert(bits < 4) by (bit_vector)
                requires
                    bits == (leaf >> shift) & 3,
            ;
            kind_of(bits)
        } else {
            None
        }
    }

    /// Whether the table lists `cp` as a titlecase letter that is not
    /// Greek.
    pub fn is_non_greek_titlecase(&self, cp: u32) -> (listed: bool)
        ensures
            listed == self.non_greek@.contains(cp),
    {
        let mut i: usize = 0;
        while i < self.non_greek.len()
            invariant
                0 <= i <= self.non_greek@.len(),
                forall|k: int| 0 <= k < i ==> self.non_greek@[k] != cp,
            decreases self.non_greek.len() - i,
        {
            if self.non_greek[i] == cp {
                return true;
            }
            i = i + 1;
        }
        false
    }
}

/// `casings` filled up with `None` to a multiple of 64.
pub open spec fn spec_padded(casings: Seq<Option<CasedLetterKind>>) -> Seq<Option<CasedLetterKind>> {
    casings + Seq::new(((64 - casings.len() % 64) % 64) as nat, |i: int| None::<CasedLetterKind>)
}

/// The table of the cases `casing_vec`, which are filled up with `None` to
/// a whole leaf, and of the list `non_greek`.
///
/// Fails if the tree needs more than `MAX_LEAVES` leaves, and only then.
pub fn table(casing_vec: Vec<Option<CasedLetterKind>>, non_greek: Vec<u32>) -> (table: Result<
    CasingTable,
    TableError,
>)
    requires
        casing_vec@.len() <= CODE_POINTS,
    ensures
        match table {
            Ok(table) => {
                &&& table.wf()
                &&& table.non_greek@ == non_greek@
                &&& table.first_cp_not_in_tree == spec_padded(casing_vec@).len()
                &&& table.leaves@ == spec_casing_leaves(spec_padded(casing_vec@))
                &&& table.leaves@.len() <= MAX_LEAVES
                &&& tree_holds(
                    table.root@,
                    table.leaves@,
                    code_chunks(spec_padded(casing_vec@), table.first_cp_not_in_tree as int / 64),
                )
                &&& forall|cp: int|
                    0 <= cp ==> #[trigger] table.spec_code_of(cp) == if cp < casing_vec@.len() {
                        spec_code(casing_vec@[cp])
                    } else {
                        0
                    }
            },
            Err(e) => e == TableError::Leaves && spec_casing_leaves(spec_padded(casing_vec@)).len()
                > MAX_LEAVES,
        },
{
    let ghost given = casing_vec@;
    let first: usize = (casing_vec.len() + 63) / 64 * 64;
    let mut padded = casing_vec;
    while padded.len() < first
        invariant
            given.len() <= padded@.len() <= first < given.len() + 64,
            first % 64 == 0,
            forall|k: int| 0 <= k < given.len() ==> padded@[k] == given[k],
            forall|k: int| given.len() <= k < padded@.len() ==> padded@[k] is None,
        decreases first - padded@.len(),
    {
        padded.push(None);
    }
    assert(padded@ =~= spec_padded(given));
    match build_casing_tree(&padded) {
        Ok((root, leaves)) => {
            let table = CasingTable { first_cp_not_in_tree: first, root, leaves, non_greek };
            proof {
                assert forall|cp: int| 0 <= cp implies #[trigger] table.spec_code_of(cp) == if cp
                    < given.len() {
                    spec_code(given[cp])
                } else {
                    0
                } by {
                    if cp < first {
                        assert(tree_code(root@, leaves@, cp) == spec_code(padded@[cp]));
                    }
                }
            }
            Ok(table)
        },
        Err(e) => Err(e),
    }
}

} // verus!
