//! Sets of code points, held as one bit for every code point.

use bitvec::array::BitArray;
use bitvec::order::Lsb0;
use vstd::prelude::*;

verus! {

/// How many code points there are, surrogates included.
pub const CODE_POINTS: usize = 0x110000;

/// One bit for every code point, held in a bit array of `bitvec`. The
/// verifier does not look into the array: what it holds has the name
/// `bits_of`, and the functions below say what the operations of `bitvec`
/// do to it.
#[verifier::external_body]
pub struct CodepointBitArr {
    bits: BitArray<[u64; 17408], Lsb0>,
}

/// The bits of a bit array, in order.
pub uninterp spec fn bits_of(arr: CodepointBitArr) -> Seq<bool>;

/// `BitArray::ZERO`: the bit array with every bit cleared. It has a bit for
/// every code point.
#[verifier::external_body]
pub(crate) fn zero_bits() -> (arr: CodepointBitArr)
    ensures
        bits_of(arr) == Seq::new(CODE_POINTS as nat, |i: int| false),
{
    CodepointBitArr { bits: BitArray::ZERO }
}

/// `BitSlice::len`: the number of bits, which the type fixes.
#[verifier::external_body]
pub(crate) fn bit_len(arr: &CodepointBitArr) -> (len: usize)
    ensures
        len == bits_of(*arr).len(),
        len == CODE_POINTS,
{
    arr.bits.len()
}

/// `BitSlice::set`: writes one bit and leaves the others as they are.
#[verifier::external_body]
pub(crate) fn set_bit(arr: &mut CodepointBitArr, index: usize, value: bool)
    requires
        index < bits_of(*old(arr)).len(),
    ensures
        bits_of(*final(arr)) == bits_of(*old(arr)).update(index as int, value),
{
    arr.bits.set(index, value);
}

/// Indexing a bit array: reads one bit.
#[verifier::external_body]
pub(crate) fn get_bit(arr: &CodepointBitArr, index: usize) -> (bit: bool)
    requires
        index < bits_of(*arr).len(),
    ensures
        bit == bits_of(*arr)[index as int],
{
    arr.bits[index]
}

/// `!` on a bit array: every bit inverted.
#[verifier::external_body]
pub(crate) fn invert_bits(arr: CodepointBitArr) -> (inverted: CodepointBitArr)
    ensures
        bits_of(inverted) == Seq::new(bits_of(arr).len(), |i: int| !bits_of(arr)[i]),
{
    CodepointBitArr { bits: !arr.bits }
}

/// `&=` on two bit arrays of one length: every bit of the first stays set
/// only where the bit of the second is set too.
#[verifier::external_body]
pub(crate) fn and_bits(arr: &mut CodepointBitArr, mask: &CodepointBitArr)
    ensures
        bits_of(*final(arr)) == Seq::new(
            bits_of(*old(arr)).len(),
            |i: int| bits_of(*old(arr))[i] && bits_of(*mask)[i],
        ),
{
    arr.bits &= &mask.bits;
}

impl CodepointBitArr {
    /// The set without a code point.
    pub fn new() -> (arr: CodepointBitArr)
        ensures
            bits_of(arr) == Seq::new(CODE_POINTS as nat, |i: int| false),
    {
        zero_bits()
    }

    /// Whether the set holds the code point `cp`. It holds no number that
    /// is no code point.
    pub fn get(&self, cp: u32) -> (held: bool)
        ensures
            held == (cp < CODE_POINTS && bits_of(*self)[cp as int]),
    {
        let len = bit_len(self);
        (cp as usize) < len && get_bit(self, cp as usize)
    }

    /// Puts the code point `cp` into the set, or takes it out.
    pub fn set(&mut self, cp: u32, value: bool)
        requires
            cp < CODE_POINTS,
        ensures
            bits_of(*final(self)) == bits_of(*old(self)).update(cp as int, value),
            bits_of(*final(self)).len() == CODE_POINTS,
    {
        let len = bit_len(self);
        set_bit(self, cp as usize, value);
    }
}

} // verus!
