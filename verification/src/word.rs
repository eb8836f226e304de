//! Machine words read as rows of flags.
//!
//! [`BitWord`] names what the bit-field operations need from an integer type:
//! its width, its bitwise operators, the masks that single out one position,
//! and the meaning of all of these on the word's flags.

use vstd::prelude::*;

verus! {

/// The row of `width` flags in which only position `bit` is raised.
pub open spec fn only_bit(width: nat, bit: int) -> Seq<bool> {
    Seq::new(width, |i: int| i == bit)
}

/// A fixed-width integer read as a row of independently addressable flags.
///
/// Position 0 is the least significant bit. A signed word is read by its bit
/// pattern, so its sign bit is the flag at position `width() - 1`.
pub trait BitWord: Copy + Sized {
    /// Number of addressable bit positions.
    spec fn width() -> nat;

    /// The word as a row of flags: entry `i` is `(self >> i) & 1 != 0`.
    spec fn flags(self) -> Seq<bool>;

    /// `1 << bit`, shifted in the word's own width.
    spec fn bit_mask(bit: int) -> Self;

    /// `self | rhs`.
    spec fn bit_or(self, rhs: Self) -> Self;

    /// `self & rhs`.
    spec fn bit_and(self, rhs: Self) -> Self;

    /// `self ^ rhs`.
    spec fn bit_xor(self, rhs: Self) -> Self;

    /// `!self`.
    spec fn bit_not(self) -> Self;

    /// Number of bit positions: eight for each byte of the word.
    fn bit_count() -> (n: usize)
        ensures
            n == Self::width(),
            n == 8 * size_of::<Self>(),
    ;

    /// The operand that raises bit `bit` when or-ed into a word, and flips it
    /// when xor-ed into one.
    fn set_mask(bit: usize) -> (mask: Self)
        requires
            bit < Self::width(),
        ensures
            mask == Self::bit_mask(bit as int),
    ;

    /// The operand that clears bit `bit` when and-ed into a word.
    fn reset_mask(bit: usize) -> (mask: Self)
        requires
            bit < Self::width(),
        ensures
            mask == Self::bit_mask(bit as int).bit_not(),
    ;

    /// Whether bit `bit` of the word is set, tested against the bit's mask.
    fn has_bit(self, bit: usize) -> (set: bool)
        requires
            bit < Self::width(),
        ensures
            set == self.flags()[bit as int],
    ;

    /// Whether bit `bit` of the word is set, as `bit_field` reads it.
    fn extract_bit(self, bit: usize) -> (set: bool)
        requires
            bit < Self::width(),
        ensures
            set == self.flags()[bit as int],
    ;

    /// A word has one flag for each bit position.
    proof fn lemma_flags_len(self)
        ensures
            self.flags().len() == Self::width(),
    ;

    /// Two words with the same flags are the same word.
    proof fn lemma_flags_injective(self, other: Self)
        requires
            self.flags() == other.flags(),
        ensures
            self == other,
    ;

    /// The mask of a position has that flag raised and no other.
    proof fn lemma_bit_mask(bit: int)
        requires
            0 <= bit < Self::width(),
        ensures
            Self::bit_mask(bit).flags() == only_bit(Self::width(), bit),
    ;

    /// Or works flag by flag.
    proof fn lemma_bit_or(self, rhs: Self)
        ensures
            forall|i: int|
                0 <= i < Self::width() ==> #[trigger] self.bit_or(rhs).flags()[i]
                    == (self.flags()[i] || rhs.flags()[i]),
    ;

    /// And works flag by flag.
    proof fn lemma_bit_and(self, rhs: Self)
        ensures
            forall|i: int|
                0 <= i < Self::width() ==> #[trigger] self.bit_and(rhs).flags()[i]
                    == (self.flags()[i] && rhs.flags()[i]),
    ;

    /// Xor works flag by flag.
    proof fn lemma_bit_xor(self, rhs: Self)
        ensures
            forall|i: int|
                0 <= i < Self::width() ==> #[trigger] self.bit_xor(rhs).flags()[i]
                    == (self.flags()[i] != rhs.flags()[i]),
    ;

    /// Not inverts every flag.
    proof fn lemma_bit_not(self)
        ensures
            forall|i: int|
                0 <= i < Self::width() ==> #[trigger] self.bit_not().flags()[i]
                    == !self.flags()[i],
    ;
}

} // verus!
