//! The bit layout of a packed tagged-pointer word.
//!
//! A word holds the pointer address in its low 56 bits and the tag in its high 8 bits. User-space
//! addresses stay below `0x0100_0000_0000_0000` even with 57-bit virtual addresses (5-level
//! paging), so no address is truncated.
use vstd::prelude::*;

verus! {

/// Mask of the tag bits, once shifted down to the low end of a word.
pub const TAG_MASK: usize = 0xFF;

/// Mask of the bits of a word that hold the pointer address.
pub const PTR_MASK: u64 = 0x00FF_FFFF_FFFF_FFFF;

/// Position of the lowest tag bit in a packed word.
pub const TAG_SHIFT: u64 = 56;

/// The word that holds address `addr` and tag `tag`.
pub open spec fn packed(addr: u64, tag: u64) -> u64 {
    (tag << 56u64) | addr
}

/// The address held by a word.
pub open spec fn word_addr(w: u64) -> u64 {
    w & PTR_MASK
}

/// The tag held by a word.
pub open spec fn word_tag(w: u64) -> u64 {
    w >> 56u64
}

/// Unpacking a packed word gives back the address and the tag that went in, for every address
/// the layout has room for and every tag value: no address is truncated and no tag is lost.
pub proof fn law_unpack_of_pack(addr: u64, tag: u64)
    requires
        addr <= PTR_MASK,
        tag <= TAG_MASK,
    ensures
        word_addr(packed(addr, tag)) == addr,
        word_tag(packed(addr, tag)) == tag,
{
    assert(addr <= 0x00FF_FFFF_FFFF_FFFFu64 && tag <= 0xFFu64 ==> ((tag << 56u64) | addr)
        & 0x00FF_FFFF_FFFF_FFFFu64 == addr) by (bit_vector);
    assert(addr <= 0x00FF_FFFF_FFFF_FFFFu64 && tag <= 0xFFu64 ==> ((tag << 56u64) | addr) >> 56u64
        == tag) by (bit_vector);
}

/// Every word is the packing of its own address and tag, and those are always in range: a word
/// loaded from an atomic slot always decodes to a valid tagged pointer.
pub proof fn law_pack_of_unpack(w: u64)
    ensures
        packed(word_addr(w), word_tag(w)) == w,
        word_addr(w) <= PTR_MASK,
        word_tag(w) <= TAG_MASK,
{
    assert(((w >> 56u64) << 56u64) | (w & 0x00FF_FFFF_FFFF_FFFFu64) == w) by (bit_vector);
    assert(w & 0x00FF_FFFF_FFFF_FFFFu64 <= 0x00FF_FFFF_FFFF_FFFFu64) by (bit_vector);
    assert(w >> 56u64 <= 0xFFu64) by (bit_vector);
}

/// Packing is injective on valid inputs: two tagged pointers pack to the same word exactly when
/// their addresses and their tags are equal.
pub proof fn law_packed_injective(a1: u64, t1: u64, a2: u64, t2: u64)
    requires
        a1 <= PTR_MASK,
        a2 <= PTR_MASK,
        t1 <= TAG_MASK,
        t2 <= TAG_MASK,
    ensures
        (packed(a1, t1) == packed(a2, t2)) <==> (a1 == a2 && t1 == t2),
{
    law_unpack_of_pack(a1, t1);
    law_unpack_of_pack(a2, t2);
}

/// Packs an address and a tag value into one word; the tag is masked to the layout's width.
pub fn pack_word(addr: u64, tag: usize) -> (w: u64)
    requires
        addr <= PTR_MASK,
    ensures
        w == packed(addr, (tag & TAG_MASK) as u64),
{
    ((tag & TAG_MASK) as u64) << TAG_SHIFT | addr
}

/// Splits a word into its address and its tag value.
pub fn unpack_word(w: u64) -> (at: (u64, usize))
    ensures
        at.0 == word_addr(w),
        at.1 == word_tag(w),
        at.0 <= PTR_MASK,
        at.1 <= TAG_MASK,
{
    proof {
        law_pack_of_unpack(w);
    }
    (w & PTR_MASK, (w >> TAG_SHIFT) as usize)
}

/// An address fits in the layout exactly when it has no bit outside `PTR_MASK`: the bound that
/// packing requires is the absence of high address bits.
pub proof fn law_fits_iff_no_high_bits(addr: u64)
    ensures
        (addr & !PTR_MASK == 0) <==> addr <= PTR_MASK,
{
    assert((addr & !0x00FF_FFFF_FFFF_FFFFu64 == 0u64) <==> addr <= 0x00FF_FFFF_FFFF_FFFFu64)
        by (bit_vector);
}

} // verus!
