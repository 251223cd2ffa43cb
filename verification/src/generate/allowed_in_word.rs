//! The set of the code points that can be part of a word, and its table.

use crate::generate::bits::{
    and_bits, bit_len, bits_of, invert_bits, set_bit, zero_bits, CodepointBitArr, CODE_POINTS,
};
use crate::generate::table::{bit_table, spec_tree_leaves, table_of, BitTable};
use crate::generate::tree::MAX_LEAVES;
use crate::generate::unicode_data::{
    set_by_general_category, set_by_prop, spec_set_by_general_category, spec_set_by_prop,
    DataFiles, TableError,
};
use vstd::prelude::*;

verus! {

/// No code point at all.
pub open spec fn no_bits() -> Seq<bool> {
    Seq::new(CODE_POINTS as nat, |i: int| false)
}

/// Every bit of `bits` inverted.
pub open spec fn inverted(bits: Seq<bool>) -> Seq<bool> {
    Seq::new(bits.len(), |i: int| !bits[i])
}

/// The bits of `bits` that are not set in `mask`.
pub open spec fn without(bits: Seq<bool>, mask: Seq<bool>) -> Seq<bool> {
    Seq::new(bits.len(), |i: int| bits[i] && !mask[i])
}

/// The punctuation other than `Other_Punctuation`, as
/// `punctuation_non_other` finds it in `UnicodeData.txt`.
pub open spec fn spec_punctuation_non_other(unicode_data: Seq<char>) -> Result<Seq<bool>, TableError> {
    spec_set_by_general_category(no_bits(), unicode_data, "Pc|Pd|Ps|Pe|Pi|Pf"@, true)
}

/// The unassigned and private-use code points, as `unassigned_private_use`
/// finds them in `UnicodeData.txt`: those that the file does not list, and
/// those that it lists in the category `Co`.
pub open spec fn spec_unassigned_private_use(unicode_data: Seq<char>) -> Result<Seq<bool>, TableError> {
    match spec_set_by_general_category(no_bits(), unicode_data, "[A-Za-z]+"@, true) {
        Err(e) => Err(e),
        Ok(listed) => match spec_set_by_general_category(listed, unicode_data, "Cn|Co"@, false) {
            Err(e) => Err(e),
            Ok(assigned) => Ok(inverted(assigned)),
        },
    }
}

/// `bits` with the three marks of punctuation that do not separate words:
/// Hebrew geresh and gershayim, and the Tibetan tsheg.
pub open spec fn with_extra(bits: Seq<bool>) -> Seq<bool> {
    bits.update(0x05F3, true).update(0x05F4, true).update(0x0F0B, true)
}

/// The code points that can be part of a word, as `allowed_in_word` finds
/// them in the data files.
pub open spec fn spec_word_set(
    unicode_data: Seq<char>,
    derived_core_properties: Seq<char>,
    prop_list: Seq<char>,
) -> Result<Seq<bool>, TableError> {
    match spec_unassigned_private_use(unicode_data) {
        Err(e) => Err(e),
        Ok(open) => match spec_set_by_prop(
            open,
            derived_core_properties,
            "ID_Continue|Alphabetic"@,
            true,
        ) {
            Err(e) => Err(e),
            Ok(letters) => match spec_set_by_general_category(
                letters,
                unicode_data,
                "Nd|Nl|No"@,
                true,
            ) {
                Err(e) => Err(e),
                Ok(numbers) => match spec_set_by_prop(
                    numbers,
                    prop_list,
                    "ID_Compat_Math_Continue"@,
                    true,
                ) {
                    Err(e) => Err(e),
                    Ok(math) => match spec_punctuation_non_other(unicode_data) {
                        Err(e) => Err(e),
                        Ok(punctuation) => Ok(without(with_extra(math), punctuation)),
                    },
                },
            },
        },
    }
}

/// `true` for all punctuation other than `Other_Punctuation`.
pub fn punctuation_non_other(data: &DataFiles) -> (set: Result<CodepointBitArr, TableError>)
    ensures
        match spec_punctuation_non_other(data.unicode_data@) {
            Ok(bits) => set is Ok && bits_of(set->Ok_0) == bits,
            Err(e) => set is Err && set->Err_0 == e,
        },
{
    let mut arr = zero_bits();
    match set_by_general_category(&mut arr, data, "Pc|Pd|Ps|Pe|Pi|Pf", true) {
        Ok(()) => Ok(arr),
        Err(e) => Err(e),
    }
}

/// `true` for all unassigned and private use characters.
pub fn unassigned_private_use(data: &DataFiles) -> (set: Result<CodepointBitArr, TableError>)
    ensures
        match spec_unassigned_private_use(data.unicode_data@) {
            Ok(bits) => set is Ok && bits_of(set->Ok_0) == bits,
            Err(e) => set is Err && set->Err_0 == e,
        },
{
    let mut arr = zero_bits();
    match set_by_general_category(&mut arr, data, "[A-Za-z]+", true) {
        Ok(()) => {},
        Err(e) => {
            return Err(e);
        },
    }
    match set_by_general_category(&mut arr, data, "Cn|Co", false) {
        Ok(()) => {},
        Err(e) => {
            return Err(e);
        },
    }
    Ok(invert_bits(arr))
}

/// `true` for all code points that can be part of a word: those with the
/// property `ID_Continue`, `Alphabetic` or `ID_Compat_Math_Continue`, the
/// numbers, the unassigned and the private-use code points, and the extra
/// characters listed below; without the punctuation other than
/// `Other_Punctuation`.
pub fn allowed_in_word(data: &DataFiles) -> (set: Result<CodepointBitArr, TableError>)
    ensures
        match spec_word_set(
            data.unicode_data@,
            data.derived_core_properties@,
            data.prop_list@,
        ) {
            Ok(bits) => set is Ok && bits_of(set->Ok_0) == bits,
            Err(e) => set is Err && set->Err_0 == e,
        },
{
    let mut word_component = match unassigned_private_use(data) {
        Ok(arr) => arr,
        Err(e) => {
            return Err(e);
        },
    };
    match set_by_prop(
        &mut word_component,
        data.derived_core_properties.as_str(),
        "ID_Continue|Alphabetic",
        true,
    ) {
        Ok(()) => {},
        Err(e) => {
            return Err(e);
        },
    }
    match set_by_general_category(&mut word_component, data, "Nd|Nl|No", true) {
        Ok(()) => {},
        Err(e) => {
            return Err(e);
        },
    }
    match set_by_prop(&mut word_component, data.prop_list.as_str(), "ID_Compat_Math_Continue", true) {
        Ok(()) => {},
        Err(e) => {
            return Err(e);
        },
    }
    let len = bit_len(&word_component);
    // Of the characters that UAX 31 lists for adjustment, those that are
    // no punctuation other than Other_Punctuation (U+00B7 is in
    // ID_Continue already).
    set_bit(&mut word_component, 0x05F3, true);  // HEBREW PUNCTUATION GERESH
    set_bit(&mut word_component, 0x05F4, true);  // HEBREW PUNCTUATION GERSHAYIM
    set_bit(&mut word_component, 0x0F0B, true);  // TIBETAN MARK INTERSYLLABIC TSHEG
    let punctuation = match punctuation_non_other(data) {
        Ok(arr) => arr,
        Err(e) => {
            return Err(e);
        },
    };
    let ghost before = bits_of(word_component);
    let ghost mask = bits_of(punctuation);
    let mask_len = bit_len(&punctuation);
    assert(before.len() == mask_len);
    let keep = invert_bits(punctuation);
    and_bits(&mut word_component, &keep);
    assert(bits_of(word_component) =~= without(before, mask));
    Ok(word_component)
}

/// The table of the code points that can be part of a word: most code
/// points beyond the tree can.
pub fn table(allowed_in_word: &CodepointBitArr) -> (table: Result<BitTable, TableError>)
    ensures
        match table {
            Ok(table) => table_of(table, bits_of(*allowed_in_word), true) && spec_tree_leaves(
                bits_of(*allowed_in_word),
                true,
            ).len() <= MAX_LEAVES,
            Err(e) => e == TableError::Leaves && spec_tree_leaves(bits_of(*allowed_in_word), true).len()
                > MAX_LEAVES,
        },
{
    bit_table(allowed_in_word, true)
}

} // verus!
