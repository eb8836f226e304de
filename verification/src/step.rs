//! The single steps that the bit operations make on a word.
//!
//! Every mutating operation is one atomic read-modify-write: it replaces the
//! stored word `w` by one of the words below and reports `bit_of(w, bit)`.

use vstd::prelude::*;
use crate::word::BitWord;

verus! {

/// The flag at position `bit` of `word`.
pub open spec fn bit_of<W: BitWord>(word: W, bit: int) -> bool {
    word.flags()[bit]
}

/// The flag at position `bit` of `word`, for an index as the operations take it.
pub open spec fn flag_at<W: BitWord>(word: W, bit: usize) -> bool {
    bit_of(word, bit as int)
}

/// The mask of position `bit`, `1 << bit`, for an index as the operations take
/// it.
pub open spec fn mask_at<W: BitWord>(bit: usize) -> W {
    W::bit_mask(bit as int)
}

/// The word that setting bit `bit` leaves: `word | (1 << bit)`.
pub open spec fn after_set<W: BitWord>(word: W, bit: int) -> W {
    word.bit_or(W::bit_mask(bit))
}

/// The word that resetting bit `bit` leaves: `word & !(1 << bit)`.
pub open spec fn after_reset<W: BitWord>(word: W, bit: int) -> W {
    word.bit_and(W::bit_mask(bit).bit_not())
}

/// The word that toggling bit `bit` leaves: `word ^ (1 << bit)`.
pub open spec fn after_toggle<W: BitWord>(word: W, bit: int) -> W {
    word.bit_xor(W::bit_mask(bit))
}

/// The word that assigning `value` to bit `bit` leaves.
pub open spec fn after_swap<W: BitWord>(word: W, bit: int, value: bool) -> W {
    if value {
        after_set(word, bit)
    } else {
        after_reset(word, bit)
    }
}

/// Setting a bit raises its flag and leaves every other flag as it was.
pub proof fn lemma_after_set<W: BitWord>(word: W, bit: int)
    requires
        0 <= bit < W::width(),
    ensures
        after_set(word, bit).flags() == word.flags().update(bit, true),
{
    let mask = W::bit_mask(bit);
    W::lemma_bit_mask(bit);
    word.lemma_bit_or(mask);
    word.lemma_flags_len();
    after_set(word, bit).lemma_flags_len();
    assert(after_set(word, bit).flags() =~= word.flags().update(bit, true));
}

/// Resetting a bit lowers its flag and leaves every other flag as it was.
pub proof fn lemma_after_reset<W: BitWord>(word: W, bit: int)
    requires
        0 <= bit < W::width(),
    ensures
        after_reset(word, bit).flags() == word.flags().update(bit, false),
{
    let mask = W::bit_mask(bit);
    W::lemma_bit_mask(bit);
    mask.lemma_bit_not();
    word.lemma_bit_and(mask.bit_not());
    word.lemma_flags_len();
    after_reset(word, bit).lemma_flags_len();
    assert(after_reset(word, bit).flags() =~= word.flags().update(bit, false));
}

/// Toggling a bit inverts its flag and leaves every other flag as it was.
pub proof fn lemma_after_toggle<W: BitWord>(word: W, bit: int)
    requires
        0 <= bit < W::width(),
    ensures
        after_toggle(word, bit).flags() == word.flags().update(bit, !bit_of(word, bit)),
{
    let mask = W::bit_mask(bit);
    W::lemma_bit_mask(bit);
    word.lemma_bit_xor(mask);
    word.lemma_flags_len();
    after_toggle(word, bit).lemma_flags_len();
    assert(after_toggle(word, bit).flags() =~= word.flags().update(bit, !bit_of(word, bit)));
}

/// Assigning a value to a bit gives its flag that value and leaves every other
/// flag as it was.
pub proof fn lemma_after_swap<W: BitWord>(word: W, bit: int, value: bool)
    requires
        0 <= bit < W::width(),
    ensures
        after_swap(word, bit, value).flags() == word.flags().update(bit, value),
{
    if value {
        lemma_after_set(word, bit);
    } else {
        lemma_after_reset(word, bit);
    }
}

} // verus!
