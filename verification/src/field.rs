//! Bit-level operations on the atomic integers.
//!
//! [`AtomicBitField`] lets a shared atomic integer be used as a row of flags.
//! Every operation is one atomic access with the caller's memory ordering: a
//! load for [`AtomicBitField::get_bit`], one read-modify-write for the others.
//! What a mutating operation reports is taken from the word that its own
//! read-modify-write returned, never from a second access.
//!
//! Any thread may change the word between two calls, so no contract here
//! speaks of the word that the atomic holds before or after a call. What each
//! contract states is the library's share of the operation: which access is
//! made, with which operand and ordering, and that the result is the flag at
//! `bit` of the word which that access returned. The word that the access
//! leaves in the atomic is the standard library's to say; [`crate::step`] names
//! it, and [`crate::laws`] proves what holds of it.

use core::sync::atomic::AtomicI16;
use core::sync::atomic::AtomicI32;
use core::sync::atomic::AtomicI64;
use core::sync::atomic::AtomicI8;
use core::sync::atomic::AtomicIsize;
use core::sync::atomic::AtomicU16;
use core::sync::atomic::AtomicU32;
use core::sync::atomic::AtomicU64;
use core::sync::atomic::AtomicU8;
use core::sync::atomic::AtomicUsize;
use core::sync::atomic::Ordering;
use vstd::prelude::*;
use crate::step::flag_at;
use crate::step::mask_at;
use crate::word::BitWord;

verus! {

/// Whether an atomic load accepts the ordering: every ordering but `Release`
/// and `AcqRel`, on which a load panics.
pub open spec fn load_ordering(ord: Ordering) -> bool {
    !(ord is Release) && !(ord is AcqRel)
}

/// Tests a bit index before an operation is called with it: an index is in
/// range where it is below [`AtomicBitField::bit_len`], so `bit_len` itself, one
/// past the last bit, is the first that is not.
pub fn index_in_range<A: AtomicBitField>(bit: usize) -> (ok: bool)
    ensures
        ok == (bit < A::width()),
{
    bit < A::bit_len()
}

/// Generic trait for manipulating bits atomically.
///
/// A bit index is zero-based, counted from the least significant bit, and must
/// be below [`AtomicBitField::bit_len`]. An index out of range is a defect of
/// the caller: no operation wraps it round or maps it to another bit, so every
/// operation requires it to be in range.
///
/// In the notes below `w` is the word that the operation meets in the atomic.
pub trait AtomicBitField: Sized {
    /// Number of addressable bit positions: the width of the integer that the
    /// atomic holds.
    spec fn width() -> nat;

    /// Returns the number of bits in this atomic type.
    fn bit_len() -> (n: usize)
        ensures
            n == Self::width(),
    ;

    /// Atomically sets the bit to `new_val` at index `bit`, returning the
    /// previous value.
    ///
    /// One [`AtomicBitField::set_bit`] where `new_val` is `true`, one
    /// [`AtomicBitField::reset_bit`] where it is not, and what that call
    /// returned is handed on: the word becomes `after_swap(w, bit, new_val)`,
    /// and `bit_of(w, bit)` is returned.
    fn swap_bit(&self, bit: usize, new_val: bool, ord: Ordering) -> (prev: bool)
        requires
            bit < Self::width(),
        ensures
            new_val ==> call_ensures(Self::set_bit, (self, bit, ord), prev),
            !new_val ==> call_ensures(Self::reset_bit, (self, bit, ord), prev),
    {
        if new_val {
            self.set_bit(bit, ord)
        } else {
            self.reset_bit(bit, ord)
        }
    }

    /// Atomically retrieves the bit at index `bit`.
    ///
    /// One load, with an ordering that a load accepts: the word stays `w`, and
    /// `bit_of(w, bit)` is returned. Each impl states the load and the flag
    /// returned of the word loaded.
    fn get_bit(&self, bit: usize, ord: Ordering) -> (set: bool)
        requires
            bit < Self::width(),
            load_ordering(ord),
    ;

    /// Atomically sets the bit to `true` at index `bit`, returning the previous
    /// value.
    ///
    /// One atomic or with the bit's mask: the word becomes `after_set(w, bit)`,
    /// and `bit_of(w, bit)` is returned. Each impl states the or, its operand
    /// and the flag returned of the word that the or replaced.
    fn set_bit(&self, bit: usize, ord: Ordering) -> (prev: bool)
        requires
            bit < Self::width(),
    ;

    /// Atomically resets the bit to `false` at index `bit`, returning the
    /// previous value.
    ///
    /// One atomic and with the complement of the bit's mask: the word becomes
    /// `after_reset(w, bit)`, and `bit_of(w, bit)` is returned. Each impl states
    /// the and, its operand and the flag returned of the word that the and
    /// replaced.
    fn reset_bit(&self, bit: usize, ord: Ordering) -> (prev: bool)
        requires
            bit < Self::width(),
    ;

    /// Atomically toggles the bit at index `bit`, returning the previous value.
    ///
    /// One atomic xor with the bit's mask: the word becomes
    /// `after_toggle(w, bit)`, and `bit_of(w, bit)` is returned. Each impl
    /// states the xor, its operand and the flag returned of the word that the
    /// xor replaced.
    fn toggle_bit(&self, bit: usize, ord: Ordering) -> (prev: bool)
        requires
            bit < Self::width(),
    ;
}

impl AtomicBitField for AtomicU8 {
    open spec fn width() -> nat {
        u8::width()
    }

    fn bit_len() -> (n: usize)
        ensures
            n == 8 * size_of::<u8>(),
    {
        u8::bit_count()
    }

    fn get_bit(&self, bit: usize, ord: Ordering) -> (set: bool)
        ensures
            exists|word: u8| #[trigger]
                call_ensures(AtomicU8::load, (self, ord), word) && set == flag_at(word, bit),
    {
        let word = self.load(ord);
        word.has_bit(bit)
    }

    fn set_bit(&self, bit: usize, ord: Ordering) -> (prev: bool)
        ensures
            exists|before: u8| #[trigger]
                call_ensures(AtomicU8::fetch_or, (self, mask_at::<u8>(bit), ord), before)
                    && prev == flag_at(before, bit),
    {
        let before = self.fetch_or(u8::set_mask(bit), ord);
        before.extract_bit(bit)
    }

    fn reset_bit(&self, bit: usize, ord: Ordering) -> (prev: bool)
        ensures
            exists|before: u8| #[trigger]
                call_ensures(AtomicU8::fetch_and, (self, mask_at::<u8>(bit).bit_not(), ord), before)
                    && prev == flag_at(before, bit),
    {
        let before = self.fetch_and(u8::reset_mask(bit), ord);
        before.extract_bit(bit)
    }

    fn toggle_bit(&self, bit: usize, ord: Ordering) -> (prev: bool)
        ensures
            exists|before: u8| #[trigger]
                call_ensures(AtomicU8::fetch_xor, (self, mask_at::<u8>(bit), ord), before)
                    && prev == flag_at(before, bit),
    {
        let before = self.fetch_xor(u8::set_mask(bit), ord);
        before.extract_bit(bit)
    }
}

impl AtomicBitField for AtomicU16 {
    open spec fn width() -> nat {
        u16::width()
    }

    fn bit_len() -> (n: usize)
        ensures
            n == 8 * size_of::<u16>(),
    {
        u16::bit_count()
    }

    fn get_bit(&self, bit: usize, ord: Ordering) -> (set: bool)
        ensures
            exists|word: u16| #[trigger]
                call_ensures(AtomicU16::load, (self, ord), word) && set == flag_at(word, bit),
    {
        let word = self.load(ord);
        word.has_bit(bit)
    }

    fn set_bit(&self, bit: usize, ord: Ordering) -> (prev: bool)
        ensures
            exists|before: u16| #[trigger]
                call_ensures(AtomicU16::fetch_or, (self, mask_at::<u16>(bit), ord), before)
                    && prev == flag_at(before, bit),
    {
        let before = self.fetch_or(u16::set_mask(bit), ord);
        before.extract_bit(bit)
    }

    fn reset_bit(&self, bit: usize, ord: Ordering) -> (prev: bool)
        ensures
            exists|before: u16| #[trigger]
                call_ensures(AtomicU16::fetch_and, (self, mask_at::<u16>(bit).bit_not(), ord), before)
                    && prev == flag_at(before, bit),
    {
        let before = self.fetch_and(u16::reset_mask(bit), ord);
        before.extract_bit(bit)
    }

    fn toggle_bit(&self, bit: usize, ord: Ordering) -> (prev: bool)
        ensures
            exists|before: u16| #[trigger]
                call_ensures(AtomicU16::fetch_xor, (self, mask_at::<u16>(bit), ord), before)
                    && prev == flag_at(before, bit),
    {
        let before = self.fetch_xor(u16::set_mask(bit), ord);
        before.extract_bit(bit)
    }
}

impl AtomicBitField for AtomicU32 {
    open spec fn width() -> nat {
        u32::width()
    }

    fn bit_len() -> (n: usize)
        ensures
            n == 8 * size_of::<u32>(),
    {
        u32::bit_count()
    }

    fn get_bit(&self, bit: usize, ord: Ordering) -> (set: bool)
        ensures
            exists|word: u32| #[trigger]
                call_ensures(AtomicU32::load, (self, ord), word) && set == flag_at(word, bit),
    {
        let word = self.load(ord);
        word.has_bit(bit)
    }

    fn set_bit(&self, bit: usize, ord: Ordering) -> (prev: bool)
        ensures
            exists|before: u32| #[trigger]
                call_ensures(AtomicU32::fetch_or, (self, mask_at::<u32>(bit), ord), before)
                    && prev == flag_at(before, bit),
    {
        let before = self.fetch_or(u32::set_mask(bit), ord);
        before.extract_bit(bit)
    }

    fn reset_bit(&self, bit: usize, ord: Ordering) -> (prev: bool)
        ensures
            exists|before: u32| #[trigger]
                call_ensures(AtomicU32::fetch_and, (self, mask_at::<u32>(bit).bit_not(), ord), before)
                    && prev == flag_at(before, bit),
    {
        let before = self.fetch_and(u32::reset_mask(bit), ord);
        before.extract_bit(bit)
    }

    fn toggle_bit(&self, bit: usize, ord: Ordering) -> (prev: bool)
        ensures
            exists|before: u32| #[trigger]
                call_ensures(AtomicU32::fetch_xor, (self, mask_at::<u32>(bit), ord), before)
                    && prev == flag_at(before, bit),
    {
        let before = self.fetch_xor(u32::set_mask(bit), ord);
        before.extract_bit(bit)
    }
}

impl AtomicBitField for AtomicU64 {
    open spec fn width() -> nat {
        u64::width()
    }

    fn bit_len() -> (n: usize)
        ensures
            n == 8 * size_of::<u64>(),
    {
        u64::bit_count()
    }

    fn get_bit(&self, bit: usize, ord: Ordering) -> (set: bool)
        ensures
            exists|word: u64| #[trigger]
                call_ensures(AtomicU64::load, (self, ord), word) && set == flag_at(word, bit),
    {
        let word = self.load(ord);
        word.has_bit(bit)
    }

    fn set_bit(&self, bit: usize, ord: Ordering) -> (prev: bool)
        ensures
            exists|before: u64| #[trigger]
                call_ensures(AtomicU64::fetch_or, (self, mask_at::<u64>(bit), ord), before)
                    && prev == flag_at(before, bit),
    {
        let before = self.fetch_or(u64::set_mask(bit), ord);
        before.extract_bit(bit)
    }

    fn reset_bit(&self, bit: usize, ord: Ordering) -> (prev: bool)
        ensures
            exists|before: u64| #[trigger]
                call_ensures(AtomicU64::fetch_and, (self, mask_at::<u64>(bit).bit_not(), ord), before)
                    && prev == flag_at(before, bit),
    {
        let before = self.fetch_and(u64::reset_mask(bit), ord);
        before.extract_bit(bit)
    }

    fn toggle_bit(&self, bit: usize, ord: Ordering) -> (prev: bool)
        ensures
            exists|before: u64| #[trigger]
                call_ensures(AtomicU64::fetch_xor, (self, mask_at::<u64>(bit), ord), before)
                    && prev == flag_at(before, bit),
    {
        let before = self.fetch_xor(u64::set_mask(bit), ord);
        before.extract_bit(bit)
    }
}

impl AtomicBitField for AtomicUsize {
    open spec fn width() -> nat {
        usize::width()
    }

    fn bit_len() -> (n: usize)
        ensures
            n == 8 * size_of::<usize>(),
    {
        usize::bit_count()
    }

    fn get_bit(&self, bit: usize, ord: Ordering) -> (set: bool)
        ensures
            exists|word: usize| #[trigger]
                call_ensures(AtomicUsize::load, (self, ord), word) && set == flag_at(word, bit),
    {
        let word = self.load(ord);
        word.has_bit(bit)
    }

    fn set_bit(&self, bit: usize, ord: Ordering) -> (prev: bool)
        ensures
            exists|before: usize| #[trigger]
                call_ensures(AtomicUsize::fetch_or, (self, mask_at::<usize>(bit), ord), before)
                    && prev == flag_at(before, bit),
    {
        let before = self.fetch_or(usize::set_mask(bit), ord);
        before.extract_bit(bit)
    }

    fn reset_bit(&self, bit: usize, ord: Ordering) -> (prev: bool)
        ensures
            exists|before: usize| #[trigger]
                call_ensures(AtomicUsize::fetch_and, (self, mask_at::<usize>(bit).bit_not(), ord), before)
                    && prev == flag_at(before, bit),
    {
        let before = self.fetch_and(usize::reset_mask(bit), ord);
        before.extract_bit(bit)
    }

    fn toggle_bit(&self, bit: usize, ord: Ordering) -> (prev: bool)
        ensures
            exists|before: usize| #[trigger]
                call_ensures(AtomicUsize::fetch_xor, (self, mask_at::<usize>(bit), ord), before)
                    && prev == flag_at(before, bit),
    {
        let before = self.fetch_xor(usize::set_mask(bit), ord);
        before.extract_bit(bit)
    }
}

impl AtomicBitField for AtomicI8 {
    open spec fn width() -> nat {
        i8::width()
    }

    fn bit_len() -> (n: usize)
        ensures
            n == 8 * size_of::<i8>(),
    {
        i8::bit_count()
    }

    fn get_bit(&self, bit: usize, ord: Ordering) -> (set: bool)
        ensures
            exists|word: i8| #[trigger]
                call_ensures(AtomicI8::load, (self, ord), word) && set == flag_at(word, bit),
    {
        let word = self.load(ord);
        word.has_bit(bit)
    }

    fn set_bit(&self, bit: usize, ord: Ordering) -> (prev: bool)
        ensures
            exists|before: i8| #[trigger]
                call_ensures(AtomicI8::fetch_or, (self, mask_at::<i8>(bit), ord), before)
                    && prev == flag_at(before, bit),
    {
        let before = self.fetch_or(i8::set_mask(bit), ord);
        before.extract_bit(bit)
    }

    fn reset_bit(&self, bit: usize, ord: Ordering) -> (prev: bool)
        ensures
            exists|before: i8| #[trigger]
                call_ensures(AtomicI8::fetch_and, (self, mask_at::<i8>(bit).bit_not(), ord), before)
                    && prev == flag_at(before, bit),
    {
        let before = self.fetch_and(i8::reset_mask(bit), ord);
        before.extract_bit(bit)
    }

    fn toggle_bit(&self, bit: usize, ord: Ordering) -> (prev: bool)
        ensures
            exists|before: i8| #[trigger]
                call_ensures(AtomicI8::fetch_xor, (self, mask_at::<i8>(bit), ord), before)
                    && prev == flag_at(before, bit),
    {
        let before = self.fetch_xor(i8::set_mask(bit), ord);
        before.extract_bit(bit)
    }
}

impl AtomicBitField for AtomicI16 {
    open spec fn width() -> nat {
        i16::width()
    }

    fn bit_len() -> (n: usize)
        ensures
            n == 8 * size_of::<i16>(),
    {
        i16::bit_count()
    }

    fn get_bit(&self, bit: usize, ord: Ordering) -> (set: bool)
        ensures
            exists|word: i16| #[trigger]
                call_ensures(AtomicI16::load, (self, ord), word) && set == flag_at(word, bit),
    {
        let word = self.load(ord);
        word.has_bit(bit)
    }

    fn set_bit(&self, bit: usize, ord: Ordering) -> (prev: bool)
        ensures
            exists|before: i16| #[trigger]
                call_ensures(AtomicI16::fetch_or, (self, mask_at::<i16>(bit), ord), before)
                    && prev == flag_at(before, bit),
    {
        let before = self.fetch_or(i16::set_mask(bit), ord);
        before.extract_bit(bit)
    }

    fn reset_bit(&self, bit: usize, ord: Ordering) -> (prev: bool)
        ensures
            exists|before: i16| #[trigger]
                call_ensures(AtomicI16::fetch_and, (self, mask_at::<i16>(bit).bit_not(), ord), before)
                    && prev == flag_at(before, bit),
    {
        let before = self.fetch_and(i16::reset_mask(bit), ord);
        before.extract_bit(bit)
    }

    fn toggle_bit(&self, bit: usize, ord: Ordering) -> (prev: bool)
        ensures
            exists|before: i16| #[trigger]
                call_ensures(AtomicI16::fetch_xor, (self, mask_at::<i16>(bit), ord), before)
                    && prev == flag_at(before, bit),
    {
        let before = self.fetch_xor(i16::set_mask(bit), ord);
        before.extract_bit(bit)
    }
}

impl AtomicBitField for AtomicI32 {
    open spec fn width() -> nat {
        i32::width()
    }

    fn bit_len() -> (n: usize)
        ensures
            n == 8 * size_of::<i32>(),
    {
        i32::bit_count()
    }

    fn get_bit(&self, bit: usize, ord: Ordering) -> (set: bool)
        ensures
            exists|word: i32| #[trigger]
                call_ensures(AtomicI32::load, (self, ord), word) && set == flag_at(word, bit),
    {
        let word = self.load(ord);
        word.has_bit(bit)
    }

    fn set_bit(&self, bit: usize, ord: Ordering) -> (prev: bool)
        ensures
            exists|before: i32| #[trigger]
                call_ensures(AtomicI32::fetch_or, (self, mask_at::<i32>(bit), ord), before)
                    && prev == flag_at(before, bit),
    {
        let before = self.fetch_or(i32::set_mask(bit), ord);
        before.extract_bit(bit)
    }

    fn reset_bit(&self, bit: usize, ord: Ordering) -> (prev: bool)
        ensures
            exists|before: i32| #[trigger]
                call_ensures(AtomicI32::fetch_and, (self, mask_at::<i32>(bit).bit_not(), ord), before)
                    && prev == flag_at(before, bit),
    {
        let before = self.fetch_and(i32::reset_mask(bit), ord);
        before.extract_bit(bit)
    }

    fn toggle_bit(&self, bit: usize, ord: Ordering) -> (prev: bool)
        ensures
            exists|before: i32| #[trigger]
                call_ensures(AtomicI32::fetch_xor, (self, mask_at::<i32>(bit), ord), before)
                    && prev == flag_at(before, bit),
    {
        let before = self.fetch_xor(i32::set_mask(bit), ord);
        before.extract_bit(bit)
    }
}

impl AtomicBitField for AtomicI64 {
    open spec fn width() -> nat {
        i64::width()
    }

    fn bit_len() -> (n: usize)
        ensures
            n == 8 * size_of::<i64>(),
    {
        i64::bit_count()
    }

    fn get_bit(&self, bit: usize, ord: Ordering) -> (set: bool)
        ensures
            exists|word: i64| #[trigger]
                call_ensures(AtomicI64::load, (self, ord), word) && set == flag_at(word, bit),
    {
        let word = self.load(ord);
        word.has_bit(bit)
    }

    fn set_bit(&self, bit: usize, ord: Ordering) -> (prev: bool)
        ensures
            exists|before: i64| #[trigger]
                call_ensures(AtomicI64::fetch_or, (self, mask_at::<i64>(bit), ord), before)
                    && prev == flag_at(before, bit),
    {
        let before = self.fetch_or(i64::set_mask(bit), ord);
        before.extract_bit(bit)
    }

    fn reset_bit(&self, bit: usize, ord: Ordering) -> (prev: bool)
        ensures
            exists|before: i64| #[trigger]
                call_ensures(AtomicI64::fetch_and, (self, mask_at::<i64>(bit).bit_not(), ord), before)
                    && prev == flag_at(before, bit),
    {
        let before = self.fetch_and(i64::reset_mask(bit), ord);
        before.extract_bit(bit)
    }

    fn toggle_bit(&self, bit: usize, ord: Ordering) -> (prev: bool)
        ensures
            exists|before: i64| #[trigger]
                call_ensures(AtomicI64::fetch_xor, (self, mask_at::<i64>(bit), ord), before)
                    && prev == flag_at(before, bit),
    {
        let before = self.fetch_xor(i64::set_mask(bit), ord);
        before.extract_bit(bit)
    }
}

impl AtomicBitField for AtomicIsize {
    open spec fn width() -> nat {
        isize::width()
    }

    fn bit_len() -> (n: usize)
        ensures
            n == 8 * size_of::<isize>(),
    {
        isize::bit_count()
    }

    fn get_bit(&self, bit: usize, ord: Ordering) -> (set: bool)
        ensures
            exists|word: isize| #[trigger]
                call_ensures(AtomicIsize::load, (self, ord), word) && set == flag_at(word, bit),
    {
        let word = self.load(ord);
        word.has_bit(bit)
    }

    fn set_bit(&self, bit: usize, ord: Ordering) -> (prev: bool)
        ensures
            exists|before: isize| #[trigger]
                call_ensures(AtomicIsize::fetch_or, (self, mask_at::<isize>(bit), ord), before)
                    && prev == flag_at(before, bit),
    {
        let before = self.fetch_or(isize::set_mask(bit), ord);
        before.extract_bit(bit)
    }

    fn reset_bit(&self, bit: usize, ord: Ordering) -> (prev: bool)
        ensures
            exists|before: isize| #[trigger]
                call_ensures(AtomicIsize::fetch_and, (self, mask_at::<isize>(bit).bit_not(), ord), before)
                    && prev == flag_at(before, bit),
    {
        let before = self.fetch_and(isize::reset_mask(bit), ord);
        before.extract_bit(bit)
    }

    fn toggle_bit(&self, bit: usize, ord: Ordering) -> (prev: bool)
        ensures
            exists|before: isize| #[trigger]
                call_ensures(AtomicIsize::fetch_xor, (self, mask_at::<isize>(bit), ord), before)
                    && prev == flag_at(before, bit),
    {
        let before = self.fetch_xor(isize::set_mask(bit), ord);
        before.extract_bit(bit)
    }
}

} // verus!
