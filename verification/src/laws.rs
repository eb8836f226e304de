//! What holds of the bit operations on every word of every width.

use core::sync::atomic::AtomicI16;
use core::sync::atomic::AtomicI32;
use core::sync::atomic::AtomicI64;
use core::sync::atomic::AtomicI8;
use core::sync::atomic::AtomicIsize;
use core::sync::atomic::AtomicU16;
use core::sync::atomic::AtomicU32;
use core::sync::atomic::AtomicU64;
use core::sync::atomic::AtomicU8;
use core::sync::atomic::AtomicUsize;
use vstd::prelude::*;
use crate::field::AtomicBitField;
use crate::step::after_reset;
use crate::step::after_set;
use crate::step::after_swap;
use crate::step::after_toggle;
use crate::step::bit_of;
use crate::step::lemma_after_reset;
use crate::step::lemma_after_set;
use crate::step::lemma_after_swap;
use crate::step::lemma_after_toggle;
use crate::word::BitWord;

verus! {

/// A bit that has just been set reads as `true`, whatever the word held.
pub proof fn law_get_after_set<W: BitWord>(word: W, bit: int)
    requires
        0 <= bit < W::width(),
    ensures
        bit_of(after_set(word, bit), bit),
{
    lemma_after_set(word, bit);
    word.lemma_flags_len();
}

/// A bit that has just been reset reads as `false`, whatever the word held.
pub proof fn law_get_after_reset<W: BitWord>(word: W, bit: int)
    requires
        0 <= bit < W::width(),
    ensures
        !bit_of(after_reset(word, bit), bit),
{
    lemma_after_reset(word, bit);
    word.lemma_flags_len();
}

/// Toggling the same bit twice gives back the word exactly.
pub proof fn law_toggle_involution<W: BitWord>(word: W, bit: int)
    requires
        0 <= bit < W::width(),
    ensures
        after_toggle(after_toggle(word, bit), bit) == word,
{
    let once = after_toggle(word, bit);
    let twice = after_toggle(once, bit);
    lemma_after_toggle(word, bit);
    lemma_after_toggle(once, bit);
    word.lemma_flags_len();
    assert(twice.flags() =~= word.flags());
    twice.lemma_flags_injective(word);
}

/// Setting a bit and then swapping in the value that the set reported gives
/// back the word exactly.
pub proof fn law_set_then_swap_restores<W: BitWord>(word: W, bit: int)
    requires
        0 <= bit < W::width(),
    ensures
        after_swap(after_set(word, bit), bit, bit_of(word, bit)) == word,
{
    let set = after_set(word, bit);
    let back = after_swap(set, bit, bit_of(word, bit));
    lemma_after_set(word, bit);
    lemma_after_swap(set, bit, bit_of(word, bit));
    word.lemma_flags_len();
    assert(back.flags() =~= word.flags());
    back.lemma_flags_injective(word);
}

/// Setting one bit does not change what any other bit reads as.
pub proof fn law_set_leaves_other_bits<W: BitWord>(word: W, bit: int, other: int)
    requires
        0 <= bit < W::width(),
        0 <= other < W::width(),
        bit != other,
    ensures
        bit_of(after_set(word, bit), other) == bit_of(word, other),
{
    lemma_after_set(word, bit);
    word.lemma_flags_len();
}

/// The byte `0b1000`, step by step. Setting bit 0 reports `false` and leaves
/// `0b1001`; toggling bit 3 then reports `true` and leaves `0b0001`; swapping
/// `false` into bit 0 then reports `true` and leaves `0b0000`.
pub proof fn law_steps_on_a_byte()
    ensures
        !bit_of(0b1000u8, 0),
        after_set(0b1000u8, 0) == 0b1001u8,
        bit_of(0b1001u8, 3),
        after_toggle(0b1001u8, 3) == 0b0001u8,
        bit_of(0b0001u8, 0),
        after_swap(0b0001u8, 0, false) == 0b0000u8,
{
    assert((0b1000u8 >> 0int) & 1 == 0) by (bit_vector);
    assert(0b1000u8 | (1u8 << 0int) == 0b1001u8) by (bit_vector);
    assert((0b1001u8 >> 3int) & 1 != 0) by (bit_vector);
    assert(0b1001u8 ^ (1u8 << 3int) == 0b0001u8) by (bit_vector);
    assert((0b0001u8 >> 0int) & 1 != 0) by (bit_vector);
    assert(0b0001u8 & !(1u8 << 0int) == 0b0000u8) by (bit_vector);
}

/// An atomic has eight bit positions for each byte of the integer it holds:
/// 8, 16, 32 or 64 where the width is fixed, signed or not, and the width of a
/// pointer where it is not.
pub proof fn law_width_of_every_atomic()
    ensures
        AtomicU8::width() == 8,
        AtomicU8::width() == 8 * size_of::<u8>(),
        AtomicI8::width() == 8,
        AtomicI8::width() == 8 * size_of::<i8>(),
        AtomicU16::width() == 16,
        AtomicU16::width() == 8 * size_of::<u16>(),
        AtomicI16::width() == 16,
        AtomicI16::width() == 8 * size_of::<i16>(),
        AtomicU32::width() == 32,
        AtomicU32::width() == 8 * size_of::<u32>(),
        AtomicI32::width() == 32,
        AtomicI32::width() == 8 * size_of::<i32>(),
        AtomicU64::width() == 64,
        AtomicU64::width() == 8 * size_of::<u64>(),
        AtomicI64::width() == 64,
        AtomicI64::width() == 8 * size_of::<i64>(),
        AtomicUsize::width() == usize::BITS,
        AtomicUsize::width() == 8 * size_of::<usize>(),
        AtomicIsize::width() == usize::BITS,
        AtomicIsize::width() == 8 * size_of::<isize>(),
{
}

} // verus!
