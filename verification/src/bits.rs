//! Facts about the output words that the feeders compose.
//!
//! An output word lies inside a mask when it has no bit set outside it.
//! Each feeder keeps its word inside its own mask with three operations:
//! setting bits of the mask, clearing bits, and replacing the masked part.

use vstd::prelude::*;

verus! {

/// True when `word` has no bit set outside `mask`.
pub open spec fn within_mask(word: u16, mask: u16) -> bool {
    word & !mask == 0
}

/// Setting bits that lie inside the mask keeps a word inside it.
pub proof fn lemma_set_bits_within_mask(word: u16, bits: u16, mask: u16)
    by (bit_vector)
    requires
        word & !mask == 0,
        bits & !mask == 0,
    ensures
        (word | bits) & !mask == 0,
{
}

/// Clearing bits keeps a word inside its mask.
pub proof fn lemma_clear_bits_within_mask(word: u16, bits: u16, mask: u16)
    by (bit_vector)
    requires
        word & !mask == 0,
    ensures
        (word & !bits) & !mask == 0,
{
}

/// Replacing the masked part of a word that lies inside the mask leaves
/// exactly the new bits.
pub proof fn lemma_replace_masked_bits(word: u16, bits: u16, mask: u16)
    by (bit_vector)
    requires
        word & !mask == 0,
    ensures
        (word & !mask) | bits == bits,
{
}

} // verus!
