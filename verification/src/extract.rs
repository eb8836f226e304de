//! What this crate takes on trust from `bit_field`.
//!
//! `bit_field` implements `BitField` for every integer type with one body:
//! `get_bit` panics unless the index is below the type's width, and otherwise
//! answers whether the word and `1 << bit` have a bit in common. Each function
//! below makes that call on one integer type and states this of it; none of
//! these contracts is proved.

use bit_field::BitField;
use vstd::prelude::*;

verus! {

/// `BitField::get_bit` on `u8`: for an index below 8 it returns
/// `(word & (1 << bit)) != 0`, the shift made in `u8`. It panics on any other
/// index, which `requires` leaves out.
#[verifier::external_body]
pub(crate) fn read_bit_u8(word: u8, bit: usize) -> (set: bool)
    requires
        bit < 8,
    ensures
        set == (word & (1u8 << bit) != 0),
{
    word.get_bit(bit)
}

/// `BitField::get_bit` on `u16`: for an index below 16 it returns
/// `(word & (1 << bit)) != 0`, the shift made in `u16`. It panics on any other
/// index, which `requires` leaves out.
#[verifier::external_body]
pub(crate) fn read_bit_u16(word: u16, bit: usize) -> (set: bool)
    requires
        bit < 16,
    ensures
        set == (word & (1u16 << bit) != 0),
{
    word.get_bit(bit)
}

/// `BitField::get_bit` on `u32`: for an index below 32 it returns
/// `(word & (1 << bit)) != 0`, the shift made in `u32`. It panics on any other
/// index, which `requires` leaves out.
#[verifier::external_body]
pub(crate) fn read_bit_u32(word: u32, bit: usize) -> (set: bool)
    requires
        bit < 32,
    ensures
        set == (word & (1u32 << bit) != 0),
{
    word.get_bit(bit)
}

/// `BitField::get_bit` on `u64`: for an index below 64 it returns
/// `(word & (1 << bit)) != 0`, the shift made in `u64`. It panics on any other
/// index, which `requires` leaves out.
#[verifier::external_body]
pub(crate) fn read_bit_u64(word: u64, bit: usize) -> (set: bool)
    requires
        bit < 64,
    ensures
        set == (word & (1u64 << bit) != 0),
{
    word.get_bit(bit)
}

/// `BitField::get_bit` on `usize`: for an index below the pointer width it returns
/// `(word & (1 << bit)) != 0`, the shift made in `usize`. It panics on any other
/// index, which `requires` leaves out.
#[verifier::external_body]
pub(crate) fn read_bit_usize(word: usize, bit: usize) -> (set: bool)
    requires
        bit < usize::BITS,
    ensures
        set == (word & (1usize << bit) != 0),
{
    word.get_bit(bit)
}

/// `BitField::get_bit` on `i8`: for an index below 8 it returns
/// `(word & (1 << bit)) != 0`, the shift made in `i8`. It panics on any other
/// index, which `requires` leaves out.
#[verifier::external_body]
pub(crate) fn read_bit_i8(word: i8, bit: usize) -> (set: bool)
    requires
        bit < 8,
    ensures
        set == (word & (1i8 << bit) != 0),
{
    word.get_bit(bit)
}

/// `BitField::get_bit` on `i16`: for an index below 16 it returns
/// `(word & (1 << bit)) != 0`, the shift made in `i16`. It panics on any other
/// index, which `requires` leaves out.
#[verifier::external_body]
pub(crate) fn read_bit_i16(word: i16, bit: usize) -> (set: bool)
    requires
        bit < 16,
    ensures
        set == (word & (1i16 << bit) != 0),
{
    word.get_bit(bit)
}

/// `BitField::get_bit` on `i32`: for an index below 32 it returns
/// `(word & (1 << bit)) != 0`, the shift made in `i32`. It panics on any other
/// index, which `requires` leaves out.
#[verifier::external_body]
pub(crate) fn read_bit_i32(word: i32, bit: usize) -> (set: bool)
    requires
        bit < 32,
    ensures
        set == (word & (1i32 << bit) != 0),
{
    word.get_bit(bit)
}

/// `BitField::get_bit` on `i64`: for an index below 64 it returns
/// `(word & (1 << bit)) != 0`, the shift made in `i64`. It panics on any other
/// index, which `requires` leaves out.
#[verifier::external_body]
pub(crate) fn read_bit_i64(word: i64, bit: usize) -> (set: bool)
    requires
        bit < 64,
    ensures
        set == (word & (1i64 << bit) != 0),
{
    word.get_bit(bit)
}

/// `BitField::get_bit` on `isize`: for an index below the pointer width it returns
/// `(word & (1 << bit)) != 0`, the shift made in `isize`. It panics on any other
/// index, which `requires` leaves out.
#[verifier::external_body]
pub(crate) fn read_bit_isize(word: isize, bit: usize) -> (set: bool)
    requires
        bit < usize::BITS,
    ensures
        set == (word & (1isize << bit) != 0),
{
    word.get_bit(bit)
}

} // verus!
