//! [`BitWord`] for the unsigned integers.
//!
//! Every width has the same three parts. One lemma, left to the bit-vector
//! solver, says how the machine's operators act on a single bit. A second one
//! shows, from the highest bit down, that two words with the same flags are
//! equal. The impl then defines the operators and proves what [`BitWord`] asks
//! of them.

use vstd::prelude::*;
use crate::extract::read_bit_u16;
use crate::extract::read_bit_u32;
use crate::extract::read_bit_u64;
use crate::extract::read_bit_u8;
use crate::extract::read_bit_usize;
use crate::word::BitWord;

verus! {

/// How `|`, `&`, `^`, `!` and `<<` on `u8` act on single bits.
proof fn lemma_u8_bitwise(x: u8, y: u8, b: usize, i: usize)
    by (bit_vector)
    requires
        b < 8,
        i < 8,
    ensures
        (((1u8 << b) >> i) & 1 != 0) == (i == b),
        (((x | y) >> i) & 1 != 0) == (((x >> i) & 1 != 0) || ((y >> i) & 1 != 0)),
        (((x & y) >> i) & 1 != 0) == (((x >> i) & 1 != 0) && ((y >> i) & 1 != 0)),
        (((x ^ y) >> i) & 1 != 0) == (((x >> i) & 1 != 0) != ((y >> i) & 1 != 0)),
        (((!x) >> i) & 1 != 0) == !((x >> i) & 1 != 0),
        (x & (1u8 << b) != 0) == ((x >> b) & 1 != 0),
{
}

/// Two `u8` words that agree above bit `k` and at bit `k` agree from bit `k` on.
proof fn lemma_u8_suffix(x: u8, y: u8, k: usize)
    by (bit_vector)
    requires
        k < 8,
        ((x >> k) & 1 != 0) == ((y >> k) & 1 != 0),
        k + 1 < 8 ==> (x >> ((k + 1) as usize)) == (y >> ((k + 1) as usize)),
    ensures
        x >> k == y >> k,
        k == 0 ==> x == y,
{
}

/// Two `u8` words with the same flags agree from every bit on.
proof fn lemma_u8_agree_from(x: u8, y: u8, k: usize)
    requires
        k < 8,
        x.flags() == y.flags(),
    ensures
        x >> k == y >> k,
        k == 0 ==> x == y,
    decreases 8 - k,
{
    if k + 1 < 8 {
        lemma_u8_agree_from(x, y, (k + 1) as usize);
    }
    assert(x.flags()[k as int] == ((x >> k) & 1 != 0));
    assert(y.flags()[k as int] == ((y >> k) & 1 != 0));
    lemma_u8_suffix(x, y, k);
}

impl BitWord for u8 {
    open spec fn width() -> nat {
        8
    }

    open spec fn flags(self) -> Seq<bool> {
        Seq::new(8, |i: int| (self >> i) & 1 != 0)
    }

    open spec fn bit_mask(bit: int) -> Self {
        1u8 << bit
    }

    open spec fn bit_or(self, rhs: Self) -> Self {
        self | rhs
    }

    open spec fn bit_and(self, rhs: Self) -> Self {
        self & rhs
    }

    open spec fn bit_xor(self, rhs: Self) -> Self {
        self ^ rhs
    }

    open spec fn bit_not(self) -> Self {
        !self
    }

    fn bit_count() -> (n: usize)
        ensures
            n == 8,
    {
        core::mem::size_of::<u8>() * 8
    }

    fn set_mask(bit: usize) -> (mask: Self)
        ensures
            mask == 1u8 << bit,
    {
        1u8 << bit
    }

    fn reset_mask(bit: usize) -> (mask: Self)
        ensures
            mask == !(1u8 << bit),
    {
        !(1u8 << bit)
    }

    fn has_bit(self, bit: usize) -> (set: bool)
        ensures
            set == ((self >> bit) & 1 != 0),
    {
        proof {
            lemma_u8_bitwise(self, 0, bit, bit);
        }
        self & (1u8 << bit) != 0
    }

    fn extract_bit(self, bit: usize) -> (set: bool)
        ensures
            set == ((self >> bit) & 1 != 0),
    {
        proof {
            lemma_u8_bitwise(self, 0, bit, bit);
        }
        read_bit_u8(self, bit)
    }

    proof fn lemma_flags_len(self) {
    }

    proof fn lemma_flags_injective(self, other: Self) {
        lemma_u8_agree_from(self, other, 0);
    }

    proof fn lemma_bit_mask(bit: int) {
        assert forall|i: int| 0 <= i < 8 implies Self::bit_mask(bit).flags()[i]
            == (i == bit) by {
            lemma_u8_bitwise(0, 0, bit as usize, i as usize);
        }
    }

    proof fn lemma_bit_or(self, rhs: Self) {
        assert forall|i: int| 0 <= i < 8 implies #[trigger] self.bit_or(rhs).flags()[i]
            == (self.flags()[i] || rhs.flags()[i]) by {
            lemma_u8_bitwise(self, rhs, 0, i as usize);
        }
    }

    proof fn lemma_bit_and(self, rhs: Self) {
        assert forall|i: int| 0 <= i < 8 implies #[trigger] self.bit_and(rhs).flags()[i]
            == (self.flags()[i] && rhs.flags()[i]) by {
            lemma_u8_bitwise(self, rhs, 0, i as usize);
        }
    }

    proof fn lemma_bit_xor(self, rhs: Self) {
        assert forall|i: int| 0 <= i < 8 implies #[trigger] self.bit_xor(rhs).flags()[i]
            == (self.flags()[i] != rhs.flags()[i]) by {
            lemma_u8_bitwise(self, rhs, 0, i as usize);
        }
    }

    proof fn lemma_bit_not(self) {
        assert forall|i: int| 0 <= i < 8 implies #[trigger] self.bit_not().flags()[i]
            == !self.flags()[i] by {
            lemma_u8_bitwise(self, 0, 0, i as usize);
        }
    }
}

/// How `|`, `&`, `^`, `!` and `<<` on `u16` act on single bits.
proof fn lemma_u16_bitwise(x: u16, y: u16, b: usize, i: usize)
    by (bit_vector)
    requires
        b < 16,
        i < 16,
    ensures
        (((1u16 << b) >> i) & 1 != 0) == (i == b),
        (((x | y) >> i) & 1 != 0) == (((x >> i) & 1 != 0) || ((y >> i) & 1 != 0)),
        (((x & y) >> i) & 1 != 0) == (((x >> i) & 1 != 0) && ((y >> i) & 1 != 0)),
        (((x ^ y) >> i) & 1 != 0) == (((x >> i) & 1 != 0) != ((y >> i) & 1 != 0)),
        (((!x) >> i) & 1 != 0) == !((x >> i) & 1 != 0),
        (x & (1u16 << b) != 0) == ((x >> b) & 1 != 0),
{
}

/// Two `u16` words that agree above bit `k` and at bit `k` agree from bit `k` on.
proof fn lemma_u16_suffix(x: u16, y: u16, k: usize)
    by (bit_vector)
    requires
        k < 16,
        ((x >> k) & 1 != 0) == ((y >> k) & 1 != 0),
        k + 1 < 16 ==> (x >> ((k + 1) as usize)) == (y >> ((k + 1) as usize)),
    ensures
        x >> k == y >> k,
        k == 0 ==> x == y,
{
}

/// Two `u16` words with the same flags agree from every bit on.
proof fn lemma_u16_agree_from(x: u16, y: u16, k: usize)
    requires
        k < 16,
        x.flags() == y.flags(),
    ensures
        x >> k == y >> k,
        k == 0 ==> x == y,
    decreases 16 - k,
{
    if k + 1 < 16 {
        lemma_u16_agree_from(x, y, (k + 1) as usize);
    }
    assert(x.flags()[k as int] == ((x >> k) & 1 != 0));
    assert(y.flags()[k as int] == ((y >> k) & 1 != 0));
    lemma_u16_suffix(x, y, k);
}

impl BitWord for u16 {
    open spec fn width() -> nat {
        16
    }

    open spec fn flags(self) -> Seq<bool> {
        Seq::new(16, |i: int| (self >> i) & 1 != 0)
    }

    open spec fn bit_mask(bit: int) -> Self {
        1u16 << bit
    }

    open spec fn bit_or(self, rhs: Self) -> Self {
        self | rhs
    }

    open spec fn bit_and(self, rhs: Self) -> Self {
        self & rhs
    }

    open spec fn bit_xor(self, rhs: Self) -> Self {
        self ^ rhs
    }

    open spec fn bit_not(self) -> Self {
        !self
    }

    fn bit_count() -> (n: usize)
        ensures
            n == 16,
    {
        core::mem::size_of::<u16>() * 8
    }

    fn set_mask(bit: usize) -> (mask: Self)
        ensures
            mask == 1u16 << bit,
    {
        1u16 << bit
    }

    fn reset_mask(bit: usize) -> (mask: Self)
        ensures
            mask == !(1u16 << bit),
    {
        !(1u16 << bit)
    }

    fn has_bit(self, bit: usize) -> (set: bool)
        ensures
            set == ((self >> bit) & 1 != 0),
    {
        proof {
            lemma_u16_bitwise(self, 0, bit, bit);
        }
        self & (1u16 << bit) != 0
    }

    fn extract_bit(self, bit: usize) -> (set: bool)
        ensures
            set == ((self >> bit) & 1 != 0),
    {
        proof {
            lemma_u16_bitwise(self, 0, bit, bit);
        }
        read_bit_u16(self, bit)
    }

    proof fn lemma_flags_len(self) {
    }

    proof fn lemma_flags_injective(self, other: Self) {
        lemma_u16_agree_from(self, other, 0);
    }

    proof fn lemma_bit_mask(bit: int) {
        assert forall|i: int| 0 <= i < 16 implies Self::bit_mask(bit).flags()[i]
            == (i == bit) by {
            lemma_u16_bitwise(0, 0, bit as usize, i as usize);
        }
    }

    proof fn lemma_bit_or(self, rhs: Self) {
        assert forall|i: int| 0 <= i < 16 implies #[trigger] self.bit_or(rhs).flags()[i]
            == (self.flags()[i] || rhs.flags()[i]) by {
            lemma_u16_bitwise(self, rhs, 0, i as usize);
        }
    }

    proof fn lemma_bit_and(self, rhs: Self) {
        assert forall|i: int| 0 <= i < 16 implies #[trigger] self.bit_and(rhs).flags()[i]
            == (self.flags()[i] && rhs.flags()[i]) by {
            lemma_u16_bitwise(self, rhs, 0, i as usize);
        }
    }

    proof fn lemma_bit_xor(self, rhs: Self) {
        assert forall|i: int| 0 <= i < 16 implies #[trigger] self.bit_xor(rhs).flags()[i]
            == (self.flags()[i] != rhs.flags()[i]) by {
            lemma_u16_bitwise(self, rhs, 0, i as usize);
        }
    }

    proof fn lemma_bit_not(self) {
        assert forall|i: int| 0 <= i < 16 implies #[trigger] self.bit_not().flags()[i]
            == !self.flags()[i] by {
            lemma_u16_bitwise(self, 0, 0, i as usize);
        }
    }
}

/// How `|`, `&`, `^`, `!` and `<<` on `u32` act on single bits.
proof fn lemma_u32_bitwise(x: u32, y: u32, b: usize, i: usize)
    by (bit_vector)
    requires
        b < 32,
        i < 32,
    ensures
        (((1u32 << b) >> i) & 1 != 0) == (i == b),
        (((x | y) >> i) & 1 != 0) == (((x >> i) & 1 != 0) || ((y >> i) & 1 != 0)),
        (((x & y) >> i) & 1 != 0) == (((x >> i) & 1 != 0) && ((y >> i) & 1 != 0)),
        (((x ^ y) >> i) & 1 != 0) == (((x >> i) & 1 != 0) != ((y >> i) & 1 != 0)),
        (((!x) >> i) & 1 != 0) == !((x >> i) & 1 != 0),
        (x & (1u32 << b) != 0) == ((x >> b) & 1 != 0),
{
}

/// Two `u32` words that agree above bit `k` and at bit `k` agree from bit `k` on.
proof fn lemma_u32_suffix(x: u32, y: u32, k: usize)
    by (bit_vector)
    requires
        k < 32,
        ((x >> k) & 1 != 0) == ((y >> k) & 1 != 0),
        k + 1 < 32 ==> (x >> ((k + 1) as usize)) == (y >> ((k + 1) as usize)),
    ensures
        x >> k == y >> k,
        k == 0 ==> x == y,
{
}

/// Two `u32` words with the same flags agree from every bit on.
proof fn lemma_u32_agree_from(x: u32, y: u32, k: usize)
    requires
        k < 32,
        x.flags() == y.flags(),
    ensures
        x >> k == y >> k,
        k == 0 ==> x == y,
    decreases 32 - k,
{
    if k + 1 < 32 {
        lemma_u32_agree_from(x, y, (k + 1) as usize);
    }
    assert(x.flags()[k as int] == ((x >> k) & 1 != 0));
    assert(y.flags()[k as int] == ((y >> k) & 1 != 0));
    lemma_u32_suffix(x, y, k);
}

impl BitWord for u32 {
    open spec fn width() -> nat {
        32
    }

    open spec fn flags(self) -> Seq<bool> {
        Seq::new(32, |i: int| (self >> i) & 1 != 0)
    }

    open spec fn bit_mask(bit: int) -> Self {
        1u32 << bit
    }

    open spec fn bit_or(self, rhs: Self) -> Self {
        self | rhs
    }

    open spec fn bit_and(self, rhs: Self) -> Self {
        self & rhs
    }

    open spec fn bit_xor(self, rhs: Self) -> Self {
        self ^ rhs
    }

    open spec fn bit_not(self) -> Self {
        !self
    }

    fn bit_count() -> (n: usize)
        ensures
            n == 32,
    {
        core::mem::size_of::<u32>() * 8
    }

    fn set_mask(bit: usize) -> (mask: Self)
        ensures
            mask == 1u32 << bit,
    {
        1u32 << bit
    }

    fn reset_mask(bit: usize) -> (mask: Self)
        ensures
            mask == !(1u32 << bit),
    {
        !(1u32 << bit)
    }

    fn has_bit(self, bit: usize) -> (set: bool)
        ensures
            set == ((self >> bit) & 1 != 0),
    {
        proof {
            lemma_u32_bitwise(self, 0, bit, bit);
        }
        self & (1u32 << bit) != 0
    }

    fn extract_bit(self, bit: usize) -> (set: bool)
        ensures
            set == ((self >> bit) & 1 != 0),
    {
        proof {
            lemma_u32_bitwise(self, 0, bit, bit);
        }
        read_bit_u32(self, bit)
    }

    proof fn lemma_flags_len(self) {
    }

    proof fn lemma_flags_injective(self, other: Self) {
        lemma_u32_agree_from(self, other, 0);
    }

    proof fn lemma_bit_mask(bit: int) {
        assert forall|i: int| 0 <= i < 32 implies Self::bit_mask(bit).flags()[i]
            == (i == bit) by {
            lemma_u32_bitwise(0, 0, bit as usize, i as usize);
        }
    }

    proof fn lemma_bit_or(self, rhs: Self) {
        assert forall|i: int| 0 <= i < 32 implies #[trigger] self.bit_or(rhs).flags()[i]
            == (self.flags()[i] || rhs.flags()[i]) by {
            lemma_u32_bitwise(self, rhs, 0, i as usize);
        }
    }

    proof fn lemma_bit_and(self, rhs: Self) {
        assert forall|i: int| 0 <= i < 32 implies #[trigger] self.bit_and(rhs).flags()[i]
            == (self.flags()[i] && rhs.flags()[i]) by {
            lemma_u32_bitwise(self, rhs, 0, i as usize);
        }
    }

    proof fn lemma_bit_xor(self, rhs: Self) {
        assert forall|i: int| 0 <= i < 32 implies #[trigger] self.bit_xor(rhs).flags()[i]
            == (self.flags()[i] != rhs.flags()[i]) by {
            lemma_u32_bitwise(self, rhs, 0, i as usize);
        }
    }

    proof fn lemma_bit_not(self) {
        assert forall|i: int| 0 <= i < 32 implies #[trigger] self.bit_not().flags()[i]
            == !self.flags()[i] by {
            lemma_u32_bitwise(self, 0, 0, i as usize);
        }
    }
}

/// How `|`, `&`, `^`, `!` and `<<` on `u64` act on single bits.
proof fn lemma_u64_bitwise(x: u64, y: u64, b: usize, i: usize)
    by (bit_vector)
    requires
        b < 64,
        i < 64,
    ensures
        (((1u64 << b) >> i) & 1 != 0) == (i == b),
        (((x | y) >> i) & 1 != 0) == (((x >> i) & 1 != 0) || ((y >> i) & 1 != 0)),
        (((x & y) >> i) & 1 != 0) == (((x >> i) & 1 != 0) && ((y >> i) & 1 != 0)),
        (((x ^ y) >> i) & 1 != 0) == (((x >> i) & 1 != 0) != ((y >> i) & 1 != 0)),
        (((!x) >> i) & 1 != 0) == !((x >> i) & 1 != 0),
        (x & (1u64 << b) != 0) == ((x >> b) & 1 != 0),
{
}

/// Two `u64` words that agree above bit `k` and at bit `k` agree from bit `k` on.
proof fn lemma_u64_suffix(x: u64, y: u64, k: usize)
    by (bit_vector)
    requires
        k < 64,
        ((x >> k) & 1 != 0) == ((y >> k) & 1 != 0),
        k + 1 < 64 ==> (x >> ((k + 1) as usize)) == (y >> ((k + 1) as usize)),
    ensures
        x >> k == y >> k,
        k == 0 ==> x == y,
{
}

/// Two `u64` words with the same flags agree from every bit on.
proof fn lemma_u64_agree_from(x: u64, y: u64, k: usize)
    requires
        k < 64,
        x.flags() == y.flags(),
    ensures
        x >> k == y >> k,
        k == 0 ==> x == y,
    decreases 64 - k,
{
    if k + 1 < 64 {
        lemma_u64_agree_from(x, y, (k + 1) as usize);
    }
    assert(x.flags()[k as int] == ((x >> k) & 1 != 0));
    assert(y.flags()[k as int] == ((y >> k) & 1 != 0));
    lemma_u64_suffix(x, y, k);
}

impl BitWord for u64 {
    open spec fn width() -> nat {
        64
    }

    open spec fn flags(self) -> Seq<bool> {
        Seq::new(64, |i: int| (self >> i) & 1 != 0)
    }

    open spec fn bit_mask(bit: int) -> Self {
        1u64 << bit
    }

    open spec fn bit_or(self, rhs: Self) -> Self {
        self | rhs
    }

    open spec fn bit_and(self, rhs: Self) -> Self {
        self & rhs
    }

    open spec fn bit_xor(self, rhs: Self) -> Self {
        self ^ rhs
    }

    open spec fn bit_not(self) -> Self {
        !self
    }

    fn bit_count() -> (n: usize)
        ensures
            n == 64,
    {
        core::mem::size_of::<u64>() * 8
    }

    fn set_mask(bit: usize) -> (mask: Self)
        ensures
            mask == 1u64 << bit,
    {
        1u64 << bit
    }

    fn reset_mask(bit: usize) -> (mask: Self)
        ensures
            mask == !(1u64 << bit),
    {
        !(1u64 << bit)
    }

    fn has_bit(self, bit: usize) -> (set: bool)
        ensures
            set == ((self >> bit) & 1 != 0),
    {
        proof {
            lemma_u64_bitwise(self, 0, bit, bit);
        }
        self & (1u64 << bit) != 0
    }

    fn extract_bit(self, bit: usize) -> (set: bool)
        ensures
            set == ((self >> bit) & 1 != 0),
    {
        proof {
            lemma_u64_bitwise(self, 0, bit, bit);
        }
        read_bit_u64(self, bit)
    }

    proof fn lemma_flags_len(self) {
    }

    proof fn lemma_flags_injective(self, other: Self) {
        lemma_u64_agree_from(self, other, 0);
    }

    proof fn lemma_bit_mask(bit: int) {
        assert forall|i: int| 0 <= i < 64 implies Self::bit_mask(bit).flags()[i]
            == (i == bit) by {
            lemma_u64_bitwise(0, 0, bit as usize, i as usize);
        }
    }

    proof fn lemma_bit_or(self, rhs: Self) {
        assert forall|i: int| 0 <= i < 64 implies #[trigger] self.bit_or(rhs).flags()[i]
            == (self.flags()[i] || rhs.flags()[i]) by {
            lemma_u64_bitwise(self, rhs, 0, i as usize);
        }
    }

    proof fn lemma_bit_and(self, rhs: Self) {
        assert forall|i: int| 0 <= i < 64 implies #[trigger] self.bit_and(rhs).flags()[i]
            == (self.flags()[i] && rhs.flags()[i]) by {
            lemma_u64_bitwise(self, rhs, 0, i as usize);
        }
    }

    proof fn lemma_bit_xor(self, rhs: Self) {
        assert forall|i: int| 0 <= i < 64 implies #[trigger] self.bit_xor(rhs).flags()[i]
            == (self.flags()[i] != rhs.flags()[i]) by {
            lemma_u64_bitwise(self, rhs, 0, i as usize);
        }
    }

    proof fn lemma_bit_not(self) {
        assert forall|i: int| 0 <= i < 64 implies #[trigger] self.bit_not().flags()[i]
            == !self.flags()[i] by {
            lemma_u64_bitwise(self, 0, 0, i as usize);
        }
    }
}

/// How `|`, `&`, `^`, `!` and `<<` on `usize` act on single bits.
proof fn lemma_usize_bitwise(x: usize, y: usize, b: usize, i: usize)
    by (bit_vector)
    requires
        b < usize::BITS,
        i < usize::BITS,
    ensures
        (((1usize << b) >> i) & 1 != 0) == (i == b),
        (((x | y) >> i) & 1 != 0) == (((x >> i) & 1 != 0) || ((y >> i) & 1 != 0)),
        (((x & y) >> i) & 1 != 0) == (((x >> i) & 1 != 0) && ((y >> i) & 1 != 0)),
        (((x ^ y) >> i) & 1 != 0) == (((x >> i) & 1 != 0) != ((y >> i) & 1 != 0)),
        (((!x) >> i) & 1 != 0) == !((x >> i) & 1 != 0),
        (x & (1usize << b) != 0) == ((x >> b) & 1 != 0),
{
}

/// Two `usize` words that agree above bit `k` and at bit `k` agree from bit `k` on.
proof fn lemma_usize_suffix(x: usize, y: usize, k: usize)
    by (bit_vector)
    requires
        k < usize::BITS,
        ((x >> k) & 1 != 0) == ((y >> k) & 1 != 0),
        k + 1 < usize::BITS ==> (x >> ((k + 1) as usize)) == (y >> ((k + 1) as usize)),
    ensures
        x >> k == y >> k,
        k == 0 ==> x == y,
{
}

/// Two `usize` words with the same flags agree from every bit on.
proof fn lemma_usize_agree_from(x: usize, y: usize, k: usize)
    requires
        k < usize::BITS,
        x.flags() == y.flags(),
    ensures
        x >> k == y >> k,
        k == 0 ==> x == y,
    decreases usize::BITS - k,
{
    if k + 1 < usize::BITS {
        lemma_usize_agree_from(x, y, (k + 1) as usize);
    }
    assert(x.flags()[k as int] == ((x >> k) & 1 != 0));
    assert(y.flags()[k as int] == ((y >> k) & 1 != 0));
    lemma_usize_suffix(x, y, k);
}

impl BitWord for usize {
    open spec fn width() -> nat {
        usize::BITS as nat
    }

    open spec fn flags(self) -> Seq<bool> {
        Seq::new(usize::BITS as nat, |i: int| (self >> i) & 1 != 0)
    }

    open spec fn bit_mask(bit: int) -> Self {
        1usize << bit
    }

    open spec fn bit_or(self, rhs: Self) -> Self {
        self | rhs
    }

    open spec fn bit_and(self, rhs: Self) -> Self {
        self & rhs
    }

    open spec fn bit_xor(self, rhs: Self) -> Self {
        self ^ rhs
    }

    open spec fn bit_not(self) -> Self {
        !self
    }

    fn bit_count() -> (n: usize)
        ensures
            n == usize::BITS,
    {
        core::mem::size_of::<usize>() * 8
    }

    fn set_mask(bit: usize) -> (mask: Self)
        ensures
            mask == 1usize << bit,
    {
        1usize << bit
    }

    fn reset_mask(bit: usize) -> (mask: Self)
        ensures
            mask == !(1usize << bit),
    {
        !(1usize << bit)
    }

    fn has_bit(self, bit: usize) -> (set: bool)
        ensures
            set == ((self >> bit) & 1 != 0),
    {
        proof {
            lemma_usize_bitwise(self, 0, bit, bit);
        }
        self & (1usize << bit) != 0
    }

    fn extract_bit(self, bit: usize) -> (set: bool)
        ensures
            set == ((self >> bit) & 1 != 0),
    {
        proof {
            lemma_usize_bitwise(self, 0, bit, bit);
        }
        read_bit_usize(self, bit)
    }

    proof fn lemma_flags_len(self) {
    }

    proof fn lemma_flags_injective(self, other: Self) {
        lemma_usize_agree_from(self, other, 0);
    }

    proof fn lemma_bit_mask(bit: int) {
        assert forall|i: int| 0 <= i < usize::BITS as nat implies Self::bit_mask(bit).flags()[i]
            == (i == bit) by {
            lemma_usize_bitwise(0, 0, bit as usize, i as usize);
        }
    }

    proof fn lemma_bit_or(self, rhs: Self) {
        assert forall|i: int| 0 <= i < usize::BITS as nat implies #[trigger] self.bit_or(rhs).flags()[i]
            == (self.flags()[i] || rhs.flags()[i]) by {
            lemma_usize_bitwise(self, rhs, 0, i as usize);
        }
    }

    proof fn lemma_bit_and(self, rhs: Self) {
        assert forall|i: int| 0 <= i < usize::BITS as nat implies #[trigger] self.bit_and(rhs).flags()[i]
            == (self.flags()[i] && rhs.flags()[i]) by {
            lemma_usize_bitwise(self, rhs, 0, i as usize);
        }
    }

    proof fn lemma_bit_xor(self, rhs: Self) {
        assert forall|i: int| 0 <= i < usize::BITS as nat implies #[trigger] self.bit_xor(rhs).flags()[i]
            == (self.flags()[i] != rhs.flags()[i]) by {
            lemma_usize_bitwise(self, rhs, 0, i as usize);
        }
    }

    proof fn lemma_bit_not(self) {
        assert forall|i: int| 0 <= i < usize::BITS as nat implies #[trigger] self.bit_not().flags()[i]
            == !self.flags()[i] by {
            lemma_usize_bitwise(self, 0, 0, i as usize);
        }
    }
}

} // verus!
