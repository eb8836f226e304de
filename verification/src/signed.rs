//! [`BitWord`] for the signed integers.
//!
//! Every width has the same three parts. One lemma, left to the bit-vector
//! solver, says how the machine's operators act on a single bit. A second one
//! shows, from the highest bit down, that two words with the same flags are
//! equal. The impl then defines the operators and proves what [`BitWord`] asks
//! of them.

use vstd::prelude::*;
use crate::extract::read_bit_i16;
use crate::extract::read_bit_i32;
use crate::extract::read_bit_i64;
use crate::extract::read_bit_i8;
use crate::extract::read_bit_isize;
use crate::word::BitWord;

verus! {

/// How `|`, `&`, `^`, `!` and `<<` on `i8` act on single bits.
proof fn lemma_i8_bitwise(x: i8, y: i8, b: usize, i: usize)
    by (bit_vector)
    requires
        b < 8,
        i < 8,
    ensures
        (((1i8 << b) >> i) & 1 != 0) == (i == b),
        (((x | y) >> i) & 1 != 0) == (((x >> i) & 1 != 0) || ((y >> i) & 1 != 0)),
        (((x & y) >> i) & 1 != 0) == (((x >> i) & 1 != 0) && ((y >> i) & 1 != 0)),
        (((x ^ y) >> i) & 1 != 0) == (((x >> i) & 1 != 0) != ((y >> i) & 1 != 0)),
        (((!x) >> i) & 1 != 0) == !((x >> i) & 1 != 0),
        (x & (1i8 << b) != 0) == ((x >> b) & 1 != 0),
{
}

/// Two `i8` words that agree above bit `k` and at bit `k` agree from bit `k` on.
proof fn lemma_i8_suffix(x: i8, y: i8, k: usize)
    by (bit_vector)
    requires
        k < 8,
        ((x >> k) & 1 != 0) == ((y >> k) & 1 != 0),
        k + 1 < 8 ==> (x >> ((k + 1) as usize)) == (y >> ((k + 1) as usize)),
    ensures
        x >> k == y >> k,
        k == 0 ==> x == y,
{
}

/// Two `i8` words with the same flags agree from every bit on.
proof fn lemma_i8_agree_from(x: i8, y: i8, k: usize)
    requires
        k < 8,
        x.flags() == y.flags(),
    ensures
        x >> k == y >> k,
        k == 0 ==> x == y,
    decreases 8 - k,
{
    if k + 1 < 8 {
        lemma_i8_agree_from(x, y, (k + 1) as usize);
    }
    assert(x.flags()[k as int] == ((x >> k) & 1 != 0));
    assert(y.flags()[k as int] == ((y >> k) & 1 != 0));
    lemma_i8_suffix(x, y, k);
}

impl BitWord for i8 {
    open spec fn width() -> nat {
        8
    }

    open spec fn flags(self) -> Seq<bool> {
        Seq::new(8, |i: int| (self >> i) & 1 != 0)
    }

    open spec fn bit_mask(bit: int) -> Self {
        1i8 << bit
    }

    open spec fn bit_or(self, rhs: Self) -> Self {
        self | rhs
    }

    open spec fn bit_and(self, rhs: Self) -> Self {
        self & rhs
    }

    open spec fn bit_xor(self, rhs: Self) -> Self {
        self ^ rhs
    }

    open spec fn bit_not(self) -> Self {
        !self
    }

    fn bit_count() -> (n: usize)
        ensures
            n == 8,
    {
        core::mem::size_of::<i8>() * 8
    }

    fn set_mask(bit: usize) -> (mask: Self)
        ensures
            mask == 1i8 << bit,
    {
        1i8 << bit
    }

    fn reset_mask(bit: usize) -> (mask: Self)
        ensures
            mask == !(1i8 << bit),
    {
        !(1i8 << bit)
    }

    fn has_bit(self, bit: usize) -> (set: bool)
        ensures
            set == ((self >> bit) & 1 != 0),
    {
        proof {
            lemma_i8_bitwise(self, 0, bit, bit);
        }
        self & (1i8 << bit) != 0
    }

    fn extract_bit(self, bit: usize) -> (set: bool)
        ensures
            set == ((self >> bit) & 1 != 0),
    {
        proof {
            lemma_i8_bitwise(self, 0, bit, bit);
        }
        read_bit_i8(self, bit)
    }

    proof fn lemma_flags_len(self) {
    }

    proof fn lemma_flags_injective(self, other: Self) {
        lemma_i8_agree_from(self, other, 0);
    }

    proof fn lemma_bit_mask(bit: int) {
        assert forall|i: int| 0 <= i < 8 implies Self::bit_mask(bit).flags()[i]
            == (i == bit) by {
            lemma_i8_bitwise(0, 0, bit as usize, i as usize);
        }
    }

    proof fn lemma_bit_or(self, rhs: Self) {
        assert forall|i: int| 0 <= i < 8 implies #[trigger] self.bit_or(rhs).flags()[i]
            == (self.flags()[i] || rhs.flags()[i]) by {
            lemma_i8_bitwise(self, rhs, 0, i as usize);
        }
    }

    proof fn lemma_bit_and(self, rhs: Self) {
        assert forall|i: int| 0 <= i < 8 implies #[trigger] self.bit_and(rhs).flags()[i]
            == (self.flags()[i] && rhs.flags()[i]) by {
            lemma_i8_bitwise(self, rhs, 0, i as usize);
        }
    }

    proof fn lemma_bit_xor(self, rhs: Self) {
        assert forall|i: int| 0 <= i < 8 implies #[trigger] self.bit_xor(rhs).flags()[i]
            == (self.flags()[i] != rhs.flags()[i]) by {
            lemma_i8_bitwise(self, rhs, 0, i as usize);
        }
    }

    proof fn lemma_bit_not(self) {
        assert forall|i: int| 0 <= i < 8 implies #[trigger] self.bit_not().flags()[i]
            == !self.flags()[i] by {
            lemma_i8_bitwise(self, 0, 0, i as usize);
        }
    }
}

/// How `|`, `&`, `^`, `!` and `<<` on `i16` act on single bits.
proof fn lemma_i16_bitwise(x: i16, y: i16, b: usize, i: usize)
    by (bit_vector)
    requires
        b < 16,
        i < 16,
    ensures
        (((1i16 << b) >> i) & 1 != 0) == (i == b),
        (((x | y) >> i) & 1 != 0) == (((x >> i) & 1 != 0) || ((y >> i) & 1 != 0)),
        (((x & y) >> i) & 1 != 0) == (((x >> i) & 1 != 0) && ((y >> i) & 1 != 0)),
        (((x ^ y) >> i) & 1 != 0) == (((x >> i) & 1 != 0) != ((y >> i) & 1 != 0)),
        (((!x) >> i) & 1 != 0) == !((x >> i) & 1 != 0),
        (x & (1i16 << b) != 0) == ((x >> b) & 1 != 0),
{
}

/// Two `i16` words that agree above bit `k` and at bit `k` agree from bit `k` on.
proof fn lemma_i16_suffix(x: i16, y: i16, k: usize)
    by (bit_vector)
    requires
        k < 16,
        ((x >> k) & 1 != 0) == ((y >> k) & 1 != 0),
        k + 1 < 16 ==> (x >> ((k + 1) as usize)) == (y >> ((k + 1) as usize)),
    ensures
        x >> k == y >> k,
        k == 0 ==> x == y,
{
}

/// Two `i16` words with the same flags agree from every bit on.
proof fn lemma_i16_agree_from(x: i16, y: i16, k: usize)
    requires
        k < 16,
        x.flags() == y.flags(),
    ensures
        x >> k == y >> k,
        k == 0 ==> x == y,
    decreases 16 - k,
{
    if k + 1 < 16 {
        lemma_i16_agree_from(x, y, (k + 1) as usize);
    }
    assert(x.flags()[k as int] == ((x >> k) & 1 != 0));
    assert(y.flags()[k as int] == ((y >> k) & 1 != 0));
    lemma_i16_suffix(x, y, k);
}

impl BitWord for i16 {
    open spec fn width() -> nat {
        16
    }

    open spec fn flags(self) -> Seq<bool> {
        Seq::new(16, |i: int| (self >> i) & 1 != 0)
    }

    open spec fn bit_mask(bit: int) -> Self {
        1i16 << bit
    }

    open spec fn bit_or(self, rhs: Self) -> Self {
        self | rhs
    }

    open spec fn bit_and(self, rhs: Self) -> Self {
        self & rhs
    }

    open spec fn bit_xor(self, rhs: Self) -> Self {
        self ^ rhs
    }

    open spec fn bit_not(self) -> Self {
        !self
    }

    fn bit_count() -> (n: usize)
        ensures
            n == 16,
    {
        core::mem::size_of::<i16>() * 8
    }

    fn set_mask(bit: usize) -> (mask: Self)
        ensures
            mask == 1i16 << bit,
    {
        1i16 << bit
    }

    fn reset_mask(bit: usize) -> (mask: Self)
        ensures
            mask == !(1i16 << bit),
    {
        !(1i16 << bit)
    }

    fn has_bit(self, bit: usize) -> (set: bool)
        ensures
            set == ((self >> bit) & 1 != 0),
    {
        proof {
            lemma_i16_bitwise(self, 0, bit, bit);
        }
        self & (1i16 << bit) != 0
    }

    fn extract_bit(self, bit: usize) -> (set: bool)
        ensures
            set == ((self >> bit) & 1 != 0),
    {
        proof {
            lemma_i16_bitwise(self, 0, bit, bit);
        }
        read_bit_i16(self, bit)
    }

    proof fn lemma_flags_len(self) {
    }

    proof fn lemma_flags_injective(self, other: Self) {
        lemma_i16_agree_from(self, other, 0);
    }

    proof fn lemma_bit_mask(bit: int) {
        assert forall|i: int| 0 <= i < 16 implies Self::bit_mask(bit).flags()[i]
            == (i == bit) by {
            lemma_i16_bitwise(0, 0, bit as usize, i as usize);
        }
    }

    proof fn lemma_bit_or(self, rhs: Self) {
        assert forall|i: int| 0 <= i < 16 implies #[trigger] self.bit_or(rhs).flags()[i]
            == (self.flags()[i] || rhs.flags()[i]) by {
            lemma_i16_bitwise(self, rhs, 0, i as usize);
        }
    }

    proof fn lemma_bit_and(self, rhs: Self) {
        assert forall|i: int| 0 <= i < 16 implies #[trigger] self.bit_and(rhs).flags()[i]
            == (self.flags()[i] && rhs.flags()[i]) by {
            lemma_i16_bitwise(self, rhs, 0, i as usize);
        }
    }

    proof fn lemma_bit_xor(self, rhs: Self) {
        assert forall|i: int| 0 <= i < 16 implies #[trigger] self.bit_xor(rhs).flags()[i]
            == (self.flags()[i] != rhs.flags()[i]) by {
            lemma_i16_bitwise(self, rhs, 0, i as usize);
        }
    }

    proof fn lemma_bit_not(self) {
        assert forall|i: int| 0 <= i < 16 implies #[trigger] self.bit_not().flags()[i]
            == !self.flags()[i] by {
            lemma_i16_bitwise(self, 0, 0, i as usize);
        }
    }
}

/// How `|`, `&`, `^`, `!` and `<<` on `i32` act on single bits.
proof fn lemma_i32_bitwise(x: i32, y: i32, b: usize, i: usize)
    by (bit_vector)
    requires
        b < 32,
        i < 32,
    ensures
        (((1i32 << b) >> i) & 1 != 0) == (i == b),
        (((x | y) >> i) & 1 != 0) == (((x >> i) & 1 != 0) || ((y >> i) & 1 != 0)),
        (((x & y) >> i) & 1 != 0) == (((x >> i) & 1 != 0) && ((y >> i) & 1 != 0)),
        (((x ^ y) >> i) & 1 != 0) == (((x >> i) & 1 != 0) != ((y >> i) & 1 != 0)),
        (((!x) >> i) & 1 != 0) == !((x >> i) & 1 != 0),
        (x & (1i32 << b) != 0) == ((x >> b) & 1 != 0),
{
}

/// Two `i32` words that agree above bit `k` and at bit `k` agree from bit `k` on.
proof fn lemma_i32_suffix(x: i32, y: i32, k: usize)
    by (bit_vector)
    requires
        k < 32,
        ((x >> k) & 1 != 0) == ((y >> k) & 1 != 0),
        k + 1 < 32 ==> (x >> ((k + 1) as usize)) == (y >> ((k + 1) as usize)),
    ensures
        x >> k == y >> k,
        k == 0 ==> x == y,
{
}

/// Two `i32` words with the same flags agree from every bit on.
proof fn lemma_i32_agree_from(x: i32, y: i32, k: usize)
    requires
        k < 32,
        x.flags() == y.flags(),
    ensures
        x >> k == y >> k,
        k == 0 ==> x == y,
    decreases 32 - k,
{
    if k + 1 < 32 {
        lemma_i32_agree_from(x, y, (k + 1) as usize);
    }
    assert(x.flags()[k as int] == ((x >> k) & 1 != 0));
    assert(y.flags()[k as int] == ((y >> k) & 1 != 0));
    lemma_i32_suffix(x, y, k);
}

impl BitWord for i32 {
    open spec fn width() -> nat {
        32
    }

    open spec fn flags(self) -> Seq<bool> {
        Seq::new(32, |i: int| (self >> i) & 1 != 0)
    }

    open spec fn bit_mask(bit: int) -> Self {
        1i32 << bit
    }

    open spec fn bit_or(self, rhs: Self) -> Self {
        self | rhs
    }

    open spec fn bit_and(self, rhs: Self) -> Self {
        self & rhs
    }

    open spec fn bit_xor(self, rhs: Self) -> Self {
        self ^ rhs
    }

    open spec fn bit_not(self) -> Self {
        !self
    }

    fn bit_count() -> (n: usize)
        ensures
            n == 32,
    {
        core::mem::size_of::<i32>() * 8
    }

    fn set_mask(bit: usize) -> (mask: Self)
        ensures
            mask == 1i32 << bit,
    {
        1i32 << bit
    }

    fn reset_mask(bit: usize) -> (mask: Self)
        ensures
            mask == !(1i32 << bit),
    {
        !(1i32 << bit)
    }

    fn has_bit(self, bit: usize) -> (set: bool)
        ensures
            set == ((self >> bit) & 1 != 0),
    {
        proof {
            lemma_i32_bitwise(self, 0, bit, bit);
        }
        self & (1i32 << bit) != 0
    }

    fn extract_bit(self, bit: usize) -> (set: bool)
        ensures
            set == ((self >> bit) & 1 != 0),
    {
        proof {
            lemma_i32_bitwise(self, 0, bit, bit);
        }
        read_bit_i32(self, bit)
    }

    proof fn lemma_flags_len(self) {
    }

    proof fn lemma_flags_injective(self, other: Self) {
        lemma_i32_agree_from(self, other, 0);
    }

    proof fn lemma_bit_mask(bit: int) {
        assert forall|i: int| 0 <= i < 32 implies Self::bit_mask(bit).flags()[i]
            == (i == bit) by {
            lemma_i32_bitwise(0, 0, bit as usize, i as usize);
        }
    }

    proof fn lemma_bit_or(self, rhs: Self) {
        assert forall|i: int| 0 <= i < 32 implies #[trigger] self.bit_or(rhs).flags()[i]
            == (self.flags()[i] || rhs.flags()[i]) by {
            lemma_i32_bitwise(self, rhs, 0, i as usize);
        }
    }

    proof fn lemma_bit_and(self, rhs: Self) {
        assert forall|i: int| 0 <= i < 32 implies #[trigger] self.bit_and(rhs).flags()[i]
            == (self.flags()[i] && rhs.flags()[i]) by {
            lemma_i32_bitwise(self, rhs, 0, i as usize);
        }
    }

    proof fn lemma_bit_xor(self, rhs: Self) {
        assert forall|i: int| 0 <= i < 32 implies #[trigger] self.bit_xor(rhs).flags()[i]
            == (self.flags()[i] != rhs.flags()[i]) by {
            lemma_i32_bitwise(self, rhs, 0, i as usize);
        }
    }

    proof fn lemma_bit_not(self) {
        assert forall|i: int| 0 <= i < 32 implies #[trigger] self.bit_not().flags()[i]
            == !self.flags()[i] by {
            lemma_i32_bitwise(self, 0, 0, i as usize);
        }
    }
}

/// How `|`, `&`, `^`, `!` and `<<` on `i64` act on single bits.
proof fn lemma_i64_bitwise(x: i64, y: i64, b: usize, i: usize)
    by (bit_vector)
    requires
        b < 64,
        i < 64,
    ensures
        (((1i64 << b) >> i) & 1 != 0) == (i == b),
        (((x | y) >> i) & 1 != 0) == (((x >> i) & 1 != 0) || ((y >> i) & 1 != 0)),
        (((x & y) >> i) & 1 != 0) == (((x >> i) & 1 != 0) && ((y >> i) & 1 != 0)),
        (((x ^ y) >> i) & 1 != 0) == (((x >> i) & 1 != 0) != ((y >> i) & 1 != 0)),
        (((!x) >> i) & 1 != 0) == !((x >> i) & 1 != 0),
        (x & (1i64 << b) != 0) == ((x >> b) & 1 != 0),
{
}

/// Two `i64` words that agree above bit `k` and at bit `k` agree from bit `k` on.
proof fn lemma_i64_suffix(x: i64, y: i64, k: usize)
    by (bit_vector)
    requires
        k < 64,
        ((x >> k) & 1 != 0) == ((y >> k) & 1 != 0),
        k + 1 < 64 ==> (x >> ((k + 1) as usize)) == (y >> ((k + 1) as usize)),
    ensures
        x >> k == y >> k,
        k == 0 ==> x == y,
{
}

/// Two `i64` words with the same flags agree from every bit on.
proof fn lemma_i64_agree_from(x: i64, y: i64, k: usize)
    requires
        k < 64,
        x.flags() == y.flags(),
    ensures
        x >> k == y >> k,
        k == 0 ==> x == y,
    decreases 64 - k,
{
    if k + 1 < 64 {
        lemma_i64_agree_from(x, y, (k + 1) as usize);
    }
    assert(x.flags()[k as int] == ((x >> k) & 1 != 0));
    assert(y.flags()[k as int] == ((y >> k) & 1 != 0));
    lemma_i64_suffix(x, y, k);
}

impl BitWord for i64 {
    open spec fn width() -> nat {
        64
    }

    open spec fn flags(self) -> Seq<bool> {
        Seq::new(64, |i: int| (self >> i) & 1 != 0)
    }

    open spec fn bit_mask(bit: int) -> Self {
        1i64 << bit
    }

    open spec fn bit_or(self, rhs: Self) -> Self {
        self | rhs
    }

    open spec fn bit_and(self, rhs: Self) -> Self {
        self & rhs
    }

    open spec fn bit_xor(self, rhs: Self) -> Self {
        self ^ rhs
    }

    open spec fn bit_not(self) -> Self {
        !self
    }

    fn bit_count() -> (n: usize)
        ensures
            n == 64,
    {
        core::mem::size_of::<i64>() * 8
    }

    fn set_mask(bit: usize) -> (mask: Self)
        ensures
            mask == 1i64 << bit,
    {
        1i64 << bit
    }

    fn reset_mask(bit: usize) -> (mask: Self)
        ensures
            mask == !(1i64 << bit),
    {
        !(1i64 << bit)
    }

    fn has_bit(self, bit: usize) -> (set: bool)
        ensures
            set == ((self >> bit) & 1 != 0),
    {
        proof {
            lemma_i64_bitwise(self, 0, bit, bit);
        }
        self & (1i64 << bit) != 0
    }

    fn extract_bit(self, bit: usize) -> (set: bool)
        ensures
            set == ((self >> bit) & 1 != 0),
    {
        proof {
            lemma_i64_bitwise(self, 0, bit, bit);
        }
        read_bit_i64(self, bit)
    }

    proof fn lemma_flags_len(self) {
    }

    proof fn lemma_flags_injective(self, other: Self) {
        lemma_i64_agree_from(self, other, 0);
    }

    proof fn lemma_bit_mask(bit: int) {
        assert forall|i: int| 0 <= i < 64 implies Self::bit_mask(bit).flags()[i]
            == (i == bit) by {
            lemma_i64_bitwise(0, 0, bit as usize, i as usize);
        }
    }

    proof fn lemma_bit_or(self, rhs: Self) {
        assert forall|i: int| 0 <= i < 64 implies #[trigger] self.bit_or(rhs).flags()[i]
            == (self.flags()[i] || rhs.flags()[i]) by {
            lemma_i64_bitwise(self, rhs, 0, i as usize);
        }
    }

    proof fn lemma_bit_and(self, rhs: Self) {
        assert forall|i: int| 0 <= i < 64 implies #[trigger] self.bit_and(rhs).flags()[i]
            == (self.flags()[i] && rhs.flags()[i]) by {
            lemma_i64_bitwise(self, rhs, 0, i as usize);
        }
    }

    proof fn lemma_bit_xor(self, rhs: Self) {
        assert forall|i: int| 0 <= i < 64 implies #[trigger] self.bit_xor(rhs).flags()[i]
            == (self.flags()[i] != rhs.flags()[i]) by {
            lemma_i64_bitwise(self, rhs, 0, i as usize);
        }
    }

    proof fn lemma_bit_not(self) {
        assert forall|i: int| 0 <= i < 64 implies #[trigger] self.bit_not().flags()[i]
            == !self.flags()[i] by {
            lemma_i64_bitwise(self, 0, 0, i as usize);
        }
    }
}

/// How `|`, `&`, `^`, `!` and `<<` on `isize` act on single bits.
proof fn lemma_isize_bitwise(x: isize, y: isize, b: usize, i: usize)
    by (bit_vector)
    requires
        b < usize::BITS,
        i < usize::BITS,
    ensures
        (((1isize << b) >> i) & 1 != 0) == (i == b),
        (((x | y) >> i) & 1 != 0) == (((x >> i) & 1 != 0) || ((y >> i) & 1 != 0)),
        (((x & y) >> i) & 1 != 0) == (((x >> i) & 1 != 0) && ((y >> i) & 1 != 0)),
        (((x ^ y) >> i) & 1 != 0) == (((x >> i) & 1 != 0) != ((y >> i) & 1 != 0)),
        (((!x) >> i) & 1 != 0) == !((x >> i) & 1 != 0),
        (x & (1isize << b) != 0) == ((x >> b) & 1 != 0),
{
}

/// Two `isize` words that agree above bit `k` and at bit `k` agree from bit `k` on.
proof fn lemma_isize_suffix(x: isize, y: isize, k: usize)
    by (bit_vector)
    requires
        k < usize::BITS,
        ((x >> k) & 1 != 0) == ((y >> k) & 1 != 0),
        k + 1 < usize::BITS ==> (x >> ((k + 1) as usize)) == (y >> ((k + 1) as usize)),
    ensures
        x >> k == y >> k,
        k == 0 ==> x == y,
{
}

/// Two `isize` words with the same flags agree from every bit on.
proof fn lemma_isize_agree_from(x: isize, y: isize, k: usize)
    requires
        k < usize::BITS,
        x.flags() == y.flags(),
    ensures
        x >> k == y >> k,
        k == 0 ==> x == y,
    decreases usize::BITS - k,
{
    if k + 1 < usize::BITS {
        lemma_isize_agree_from(x, y, (k + 1) as usize);
    }
    assert(x.flags()[k as int] == ((x >> k) & 1 != 0));
    assert(y.flags()[k as int] == ((y >> k) & 1 != 0));
    lemma_isize_suffix(x, y, k);
}

impl BitWord for isize {
    open spec fn width() -> nat {
        usize::BITS as nat
    }

    open spec fn flags(self) -> Seq<bool> {
        Seq::new(usize::BITS as nat, |i: int| (self >> i) & 1 != 0)
    }

    open spec fn bit_mask(bit: int) -> Self {
        1isize << bit
    }

    open spec fn bit_or(self, rhs: Self) -> Self {
        self | rhs
    }

    open spec fn bit_and(self, rhs: Self) -> Self {
        self & rhs
    }

    open spec fn bit_xor(self, rhs: Self) -> Self {
        self ^ rhs
    }

    open spec fn bit_not(self) -> Self {
        !self
    }

    fn bit_count() -> (n: usize)
        ensures
            n == usize::BITS,
    {
        core::mem::size_of::<isize>() * 8
    }

    fn set_mask(bit: usize) -> (mask: Self)
        ensures
            mask == 1isize << bit,
    {
        1isize << bit
    }

    fn reset_mask(bit: usize) -> (mask: Self)
        ensures
            mask == !(1isize << bit),
    {
        !(1isize << bit)
    }

    fn has_bit(self, bit: usize) -> (set: bool)
        ensures
            set == ((self >> bit) & 1 != 0),
    {
        proof {
            lemma_isize_bitwise(self, 0, bit, bit);
        }
        self & (1isize << bit) != 0
    }

    fn extract_bit(self, bit: usize) -> (set: bool)
        ensures
            set == ((self >> bit) & 1 != 0),
    {
        proof {
            lemma_isize_bitwise(self, 0, bit, bit);
        }
        read_bit_isize(self, bit)
    }

    proof fn lemma_flags_len(self) {
    }

    proof fn lemma_flags_injective(self, other: Self) {
        lemma_isize_agree_from(self, other, 0);
    }

    proof fn lemma_bit_mask(bit: int) {
        assert forall|i: int| 0 <= i < usize::BITS as nat implies Self::bit_mask(bit).flags()[i]
            == (i == bit) by {
            lemma_isize_bitwise(0, 0, bit as usize, i as usize);
        }
    }

    proof fn lemma_bit_or(self, rhs: Self) {
        assert forall|i: int| 0 <= i < usize::BITS as nat implies #[trigger] self.bit_or(rhs).flags()[i]
            == (self.flags()[i] || rhs.flags()[i]) by {
            lemma_isize_bitwise(self, rhs, 0, i as usize);
        }
    }

    proof fn lemma_bit_and(self, rhs: Self) {
        assert forall|i: int| 0 <= i < usize::BITS as nat implies #[trigger] self.bit_and(rhs).flags()[i]
            == (self.flags()[i] && rhs.flags()[i]) by {
            lemma_isize_bitwise(self, rhs, 0, i as usize);
        }
    }

    proof fn lemma_bit_xor(self, rhs: Self) {
        assert forall|i: int| 0 <= i < usize::BITS as nat implies #[trigger] self.bit_xor(rhs).flags()[i]
            == (self.flags()[i] != rhs.flags()[i]) by {
            lemma_isize_bitwise(self, rhs, 0, i as usize);
        }
    }

    proof fn lemma_bit_not(self) {
        assert forall|i: int| 0 <= i < usize::BITS as nat implies #[trigger] self.bit_not().flags()[i]
            == !self.flags()[i] by {
            lemma_isize_bitwise(self, 0, 0, i as usize);
        }
    }
}

} // verus!
