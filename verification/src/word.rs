//! The packed back-buffer state word.
//!
//! The writer and the reader coordinate through a single byte that packs the
//! index of the back slot (the two low bits, always one of 0, 1, 2) together
//! with a dirty bit (bit 2) that is set exactly when the back slot holds a
//! published value the reader has not yet claimed.

use vstd::prelude::*;

verus! {

/// Mask selecting the back slot's index from a packed state word.
pub const BACK_INDEX_MASK: u8 = 0b11;

/// Bit marking the back slot's value as published but not yet claimed.
pub const BACK_DIRTY_BIT: u8 = 0b100;

/// The slot index carried by a packed state word.
pub open spec fn word_index(w: u8) -> u8 {
    w & BACK_INDEX_MASK
}

/// Whether a packed state word carries the dirty bit.
pub open spec fn word_dirty(w: u8) -> bool {
    w & BACK_DIRTY_BIT != 0
}

/// The state word that packs `index` with the given dirty flag.
pub open spec fn word_pack(index: u8, dirty: bool) -> u8 {
    if dirty {
        index | BACK_DIRTY_BIT
    } else {
        index
    }
}

/// Packing a valid slot index round-trips: the packed word gives back the
/// index and the dirty flag, and stays within the three meaningful bits.
pub proof fn lemma_word_pack(index: u8, dirty: bool)
    requires
        index < 3,
    ensures
        word_index(word_pack(index, dirty)) == index,
        word_dirty(word_pack(index, dirty)) == dirty,
        word_pack(index, dirty) < 8,
{
    assert((if dirty { index | 0b100u8 } else { index }) & 0b11u8 == index) by (bit_vector)
        requires
            index < 3,
    ;
    assert(((if dirty { index | 0b100u8 } else { index }) & 0b100u8 != 0) == dirty) by (bit_vector)
        requires
            index < 3,
    ;
    assert((if dirty { index | 0b100u8 } else { index }) < 8) by (bit_vector)
        requires
            index < 3,
    ;
}

/// The index bits of any word fit in two bits.
pub proof fn lemma_word_index_bound(w: u8)
    ensures
        word_index(w) < 4,
{
    assert(w & 0b11u8 < 4) by (bit_vector);
}

/// Builds the packed state word for a slot index and a dirty flag.
pub fn pack_back_info(index: u8, dirty: bool) -> (w: u8)
    requires
        index < 3,
    ensures
        w == word_pack(index, dirty),
        word_index(w) == index,
        word_dirty(w) == dirty,
        w < 8,
{
    proof {
        lemma_word_pack(index, dirty);
    }
    if dirty {
        index | BACK_DIRTY_BIT
    } else {
        index
    }
}

/// Extracts the back slot's index from a packed state word.
pub fn back_index_of(w: u8) -> (index: u8)
    ensures
        index == word_index(w),
        index < 4,
{
    proof {
        lemma_word_index_bound(w);
    }
    w & BACK_INDEX_MASK
}

/// Reads the dirty bit of a packed state word.
pub fn is_dirty(w: u8) -> (dirty: bool)
    ensures
        dirty == word_dirty(w),
{
    w & BACK_DIRTY_BIT != 0
}

} // verus!
