//! Generation tags: small counters that guard a pointer slot against the ABA problem.
use vstd::prelude::*;

use crate::layout::TAG_MASK;

verus! {

/// The number of distinct tag values; tag arithmetic is taken modulo this number.
pub open spec fn tag_modulus() -> int {
    TAG_MASK as int + 1
}

/// A generation tag; its value never exceeds `TAG_MASK`.
///
/// The derived `Debug` prints the raw field, as in `Tag(88)`; `debug_string` gives the tag's
/// own text, `Tag(0x58)`, with the value in upper-case hexadecimal, and `to_string` its decimal
/// `Display` text.
#[derive(Clone, Copy, Default, PartialEq, Eq, Structural, PartialOrd, Ord, Hash, Debug)]
pub struct Tag(pub(crate) usize);

impl View for Tag {
    type V = usize;

    closed spec fn view(&self) -> usize {
        self.0
    }
}

impl Tag {
    #[verifier::type_invariant]
    closed spec fn inv(self) -> bool {
        self.0 <= TAG_MASK
    }

    /// Creates a tag from a raw value, keeping only the bits that the layout has room for.
    pub fn new(value: usize) -> (t: Tag)
        ensures
            t@ == (value as int) % tag_modulus(),
    {
        proof {
            lemma_mask_is_mod(value);
        }
        Tag(value & TAG_MASK)
    }

    /// The raw value of the tag.
    pub fn value(self) -> (v: usize)
        ensures
            v == self@,
            v <= TAG_MASK,
    {
        proof {
            use_type_invariant(&self);
        }
        self.0
    }
}

impl Tag {
    /// Performs wrapping addition on the tag value.
    pub fn wrapping_add(self, rhs: usize) -> (t: Tag)
        ensures
            t@ == (self@ + rhs) % tag_modulus(),
    {
        proof {
            use_type_invariant(&self);
        }
        let r = Tag::new(self.0.wrapping_add(rhs));
        proof {
            lemma_wrapping_keeps_mod(self.0 as int + rhs as int, self.0.wrapping_add(rhs) as int);
        }
        r
    }

    /// Performs wrapping subtraction on the tag value.
    pub fn wrapping_sub(self, rhs: usize) -> (t: Tag)
        ensures
            t@ == (self@ - rhs) % tag_modulus(),
    {
        proof {
            use_type_invariant(&self);
        }
        let r = Tag::new(self.0.wrapping_sub(rhs));
        proof {
            lemma_wrapping_keeps_mod(self.0 as int - rhs as int, self.0.wrapping_sub(rhs) as int);
        }
        r
    }

    /// Returns the next tag value, wrapping around after the maximum.
    pub fn next(self) -> (t: Tag)
        ensures
            t@ == (self@ + 1) % tag_modulus(),
    {
        self.wrapping_add(1)
    }

    /// The largest tag value of this layout.
    pub fn max_value() -> (t: Tag)
        ensures
            t@ == TAG_MASK,
    {
        Tag(TAG_MASK)
    }
}

/// A value that differs from `exact` by a multiple of the word range leaves the same tag.
proof fn lemma_wrapping_keeps_mod(exact: int, wrapped: int)
    requires
        wrapped == exact || wrapped == exact - (usize::MAX + 1) || wrapped == exact + (usize::MAX + 1),
    ensures
        wrapped % tag_modulus() == exact % tag_modulus(),
{
    assert(usize::MAX == 0xffff_ffff || usize::MAX == 0xffff_ffff_ffff_ffff);
    assert(TAG_MASK == 0xFFusize);
    if usize::MAX == 0xffff_ffff {
        assert((exact - 0x1_0000_0000) % 256 == exact % 256) by (nonlinear_arith);
        assert((exact + 0x1_0000_0000) % 256 == exact % 256) by (nonlinear_arith);
    } else {
        assert((exact - 0x1_0000_0000_0000_0000) % 256 == exact % 256) by (nonlinear_arith);
        assert((exact + 0x1_0000_0000_0000_0000) % 256 == exact % 256) by (nonlinear_arith);
    }
}

/// The tag with value `v`.
pub closed spec fn tag_of(v: usize) -> Tag {
    Tag(v)
}

/// The tag with a value has that value.
pub broadcast proof fn lemma_tag_of_view(v: usize)
    ensures
        #[trigger] tag_of(v)@ == v,
{
}

/// A tag is determined by its value.
pub proof fn lemma_tag_view_injective(a: Tag, b: Tag)
    requires
        a@ == b@,
    ensures
        a == b,
{
}

/// Masking with `TAG_MASK` keeps the value modulo the number of tags.
pub proof fn lemma_mask_is_mod(v: usize)
    ensures
        v & TAG_MASK == (v as int) % tag_modulus(),
        v & TAG_MASK <= TAG_MASK,
{
    assert(v & 0xFFusize == v % 256) by (bit_vector);
    assert(TAG_MASK == 0xFFusize);
    assert(v & 0xFFusize <= 0xFFusize) by (bit_vector);
}

} // verus!

verus! {

impl core::ops::Add<usize> for Tag {
    type Output = Tag;

    fn add(self, rhs: usize) -> (t: Tag)
        ensures
            t@ == (self@ + rhs) % tag_modulus(),
    {
        self.wrapping_add(rhs)
    }
}

impl vstd::std_specs::ops::AddSpecImpl<usize> for Tag {
    open spec fn obeys_add_spec() -> bool {
        true
    }

    open spec fn add_req(self, rhs: usize) -> bool {
        true
    }

    closed spec fn add_spec(self, rhs: usize) -> Tag {
        Tag(((self.0 + rhs) % tag_modulus()) as usize)
    }
}

impl core::ops::Sub<usize> for Tag {
    type Output = Tag;

    fn sub(self, rhs: usize) -> (t: Tag)
        ensures
            t@ == (self@ - rhs) % tag_modulus(),
    {
        self.wrapping_sub(rhs)
    }
}

impl vstd::std_specs::ops::SubSpecImpl<usize> for Tag {
    open spec fn obeys_sub_spec() -> bool {
        true
    }

    open spec fn sub_req(self, rhs: usize) -> bool {
        true
    }

    closed spec fn sub_spec(self, rhs: usize) -> Tag {
        Tag(((self.0 - rhs) % tag_modulus()) as usize)
    }
}

impl core::ops::BitAnd<usize> for Tag {
    type Output = Tag;

    fn bitand(self, rhs: usize) -> (t: Tag)
        ensures
            t@ == self@ & rhs,
    {
        proof {
            use_type_invariant(&self);
            lemma_and_stays_in_range(self.0, rhs);
        }
        Tag::new(self.0 & rhs)
    }
}

impl vstd::std_specs::ops::BitAndSpecImpl<usize> for Tag {
    open spec fn obeys_bitand_spec() -> bool {
        true
    }

    open spec fn bitand_req(self, rhs: usize) -> bool {
        true
    }

    closed spec fn bitand_spec(self, rhs: usize) -> Tag {
        Tag((self.0 & rhs) as usize)
    }
}

impl core::ops::BitAnd<Tag> for Tag {
    type Output = Tag;

    fn bitand(self, rhs: Tag) -> (t: Tag)
        ensures
            t@ == self@ & rhs@,
    {
        self & rhs.value()
    }
}

impl vstd::std_specs::ops::BitAndSpecImpl<Tag> for Tag {
    open spec fn obeys_bitand_spec() -> bool {
        true
    }

    open spec fn bitand_req(self, rhs: Tag) -> bool {
        true
    }

    closed spec fn bitand_spec(self, rhs: Tag) -> Tag {
        Tag((self.0 & rhs.0) as usize)
    }
}

impl core::ops::BitOr<usize> for Tag {
    type Output = Tag;

    fn bitor(self, rhs: usize) -> (t: Tag)
        ensures
            t@ == (self@ | rhs) & TAG_MASK,
    {
        proof {
            lemma_mask_is_mod(self.0 | rhs);
        }
        Tag::new(self.0 | rhs)
    }
}

impl vstd::std_specs::ops::BitOrSpecImpl<usize> for Tag {
    open spec fn obeys_bitor_spec() -> bool {
        true
    }

    open spec fn bitor_req(self, rhs: usize) -> bool {
        true
    }

    closed spec fn bitor_spec(self, rhs: usize) -> Tag {
        Tag(((self.0 | rhs) & TAG_MASK) as usize)
    }
}

impl core::ops::BitOr<Tag> for Tag {
    type Output = Tag;

    fn bitor(self, rhs: Tag) -> (t: Tag)
        ensures
            t@ == self@ | rhs@,
    {
        proof {
            use_type_invariant(&self);
            use_type_invariant(&rhs);
            lemma_or_xor_stay_in_range(self.0, rhs.0);
        }
        self | rhs.value()
    }
}

impl vstd::std_specs::ops::BitOrSpecImpl<Tag> for Tag {
    open spec fn obeys_bitor_spec() -> bool {
        true
    }

    open spec fn bitor_req(self, rhs: Tag) -> bool {
        true
    }

    closed spec fn bitor_spec(self, rhs: Tag) -> Tag {
        Tag((self.0 | rhs.0) as usize)
    }
}

impl core::ops::BitXor<usize> for Tag {
    type Output = Tag;

    fn bitxor(self, rhs: usize) -> (t: Tag)
        ensures
            t@ == (self@ ^ rhs) & TAG_MASK,
    {
        proof {
            lemma_mask_is_mod(self.0 ^ rhs);
        }
        Tag::new(self.0 ^ rhs)
    }
}

impl vstd::std_specs::ops::BitXorSpecImpl<usize> for Tag {
    open spec fn obeys_bitxor_spec() -> bool {
        true
    }

    open spec fn bitxor_req(self, rhs: usize) -> bool {
        true
    }

    closed spec fn bitxor_spec(self, rhs: usize) -> Tag {
        Tag(((self.0 ^ rhs) & TAG_MASK) as usize)
    }
}

impl core::ops::BitXor<Tag> for Tag {
    type Output = Tag;

    fn bitxor(self, rhs: Tag) -> (t: Tag)
        ensures
            t@ == self@ ^ rhs@,
    {
        proof {
            use_type_invariant(&self);
            use_type_invariant(&rhs);
            lemma_or_xor_stay_in_range(self.0, rhs.0);
        }
        self ^ rhs.value()
    }
}

impl vstd::std_specs::ops::BitXorSpecImpl<Tag> for Tag {
    open spec fn obeys_bitxor_spec() -> bool {
        true
    }

    open spec fn bitxor_req(self, rhs: Tag) -> bool {
        true
    }

    closed spec fn bitxor_spec(self, rhs: Tag) -> Tag {
        Tag((self.0 ^ rhs.0) as usize)
    }
}

impl core::ops::Not for Tag {
    type Output = Tag;

    fn not(self) -> (t: Tag)
        ensures
            t@ == TAG_MASK - self@,
    {
        proof {
            use_type_invariant(&self);
            lemma_not_in_range(self.0);
        }
        Tag::new(!self.0)
    }
}

impl vstd::std_specs::ops::NotSpecImpl for Tag {
    open spec fn obeys_not_spec() -> bool {
        true
    }

    open spec fn not_req(self) -> bool {
        true
    }

    closed spec fn not_spec(self) -> Tag {
        Tag((TAG_MASK - self.0) as usize)
    }
}

impl core::ops::AddAssign<usize> for Tag {
    fn add_assign(&mut self, rhs: usize)
        ensures
            final(self)@ == (old(self)@ + rhs) % tag_modulus(),
    {
        *self = *self + rhs;
    }
}

impl core::ops::SubAssign<usize> for Tag {
    fn sub_assign(&mut self, rhs: usize)
        ensures
            final(self)@ == (old(self)@ - rhs) % tag_modulus(),
    {
        *self = *self - rhs;
    }
}

impl core::ops::BitAndAssign<usize> for Tag {
    fn bitand_assign(&mut self, rhs: usize)
        ensures
            final(self)@ == old(self)@ & rhs,
    {
        *self = *self & rhs;
    }
}

impl core::ops::BitAndAssign<Tag> for Tag {
    fn bitand_assign(&mut self, rhs: Tag)
        ensures
            final(self)@ == old(self)@ & rhs@,
    {
        *self = *self & rhs;
    }
}

impl core::ops::BitOrAssign<usize> for Tag {
    fn bitor_assign(&mut self, rhs: usize)
        ensures
            final(self)@ == (old(self)@ | rhs) & TAG_MASK,
    {
        *self = *self | rhs;
    }
}

impl core::ops::BitOrAssign<Tag> for Tag {
    fn bitor_assign(&mut self, rhs: Tag)
        ensures
            final(self)@ == old(self)@ | rhs@,
    {
        *self = *self | rhs;
    }
}

impl core::ops::BitXorAssign<usize> for Tag {
    fn bitxor_assign(&mut self, rhs: usize)
        ensures
            final(self)@ == (old(self)@ ^ rhs) & TAG_MASK,
    {
        *self = *self ^ rhs;
    }
}

impl core::ops::BitXorAssign<Tag> for Tag {
    fn bitxor_assign(&mut self, rhs: Tag)
        ensures
            final(self)@ == old(self)@ ^ rhs@,
    {
        *self = *self ^ rhs;
    }
}

/// `x & r` of a tag value `x` is again a tag value.
proof fn lemma_and_stays_in_range(x: usize, r: usize)
    requires
        x <= TAG_MASK,
    ensures
        ((x & r) as int) % tag_modulus() == x & r,
        x & r <= TAG_MASK,
{
    assert(TAG_MASK == 0xFFusize);
    assert(x <= 0xFFusize ==> (x & r) <= 0xFFusize) by (bit_vector);
}

/// `x | y` and `x ^ y` of two tag values are again tag values, left alone by the mask.
proof fn lemma_or_xor_stay_in_range(x: usize, y: usize)
    requires
        x <= TAG_MASK,
        y <= TAG_MASK,
    ensures
        (x | y) & TAG_MASK == x | y,
        (x ^ y) & TAG_MASK == x ^ y,
{
    assert(TAG_MASK == 0xFFusize);
    assert(x <= 0xFFusize && y <= 0xFFusize ==> (x | y) & 0xFFusize == x | y) by (bit_vector);
    assert(x <= 0xFFusize && y <= 0xFFusize ==> (x ^ y) & 0xFFusize == x ^ y) by (bit_vector);
}

/// The complement of a tag value, masked, mirrors it within the tag range.
proof fn lemma_not_in_range(x: usize)
    requires
        x <= TAG_MASK,
    ensures
        (!x as int) % tag_modulus() == TAG_MASK - x,
{
    assert(TAG_MASK == 0xFFusize);
    assert(x <= 0xFFusize ==> !x & 0xFFusize == 0xFFusize - x) by (bit_vector);
    lemma_mask_is_mod(!x);
}

} // verus!

verus! {

impl From<usize> for Tag {
    fn from(value: usize) -> (t: Tag)
        ensures
            t@ == (value as int) % tag_modulus(),
    {
        Tag::new(value)
    }
}

impl vstd::std_specs::convert::FromSpecImpl<usize> for Tag {
    open spec fn obeys_from_spec() -> bool {
        true
    }

    closed spec fn from_spec(v: usize) -> Tag {
        Tag(((v as int) % tag_modulus()) as usize)
    }
}

impl From<u8> for Tag {
    fn from(value: u8) -> (t: Tag)
        ensures
            t@ == (value as int) % tag_modulus(),
    {
        Tag::new(value as usize)
    }
}

impl vstd::std_specs::convert::FromSpecImpl<u8> for Tag {
    open spec fn obeys_from_spec() -> bool {
        true
    }

    closed spec fn from_spec(v: u8) -> Tag {
        Tag(((v as int) % tag_modulus()) as usize)
    }
}

impl From<u16> for Tag {
    fn from(value: u16) -> (t: Tag)
        ensures
            t@ == (value as int) % tag_modulus(),
    {
        Tag::new(value as usize)
    }
}

impl vstd::std_specs::convert::FromSpecImpl<u16> for Tag {
    open spec fn obeys_from_spec() -> bool {
        true
    }

    closed spec fn from_spec(v: u16) -> Tag {
        Tag(((v as int) % tag_modulus()) as usize)
    }
}

impl From<u32> for Tag {
    fn from(value: u32) -> (t: Tag)
        ensures
            t@ == (value as int) % tag_modulus(),
    {
        Tag::new(value as usize)
    }
}

impl vstd::std_specs::convert::FromSpecImpl<u32> for Tag {
    open spec fn obeys_from_spec() -> bool {
        true
    }

    closed spec fn from_spec(v: u32) -> Tag {
        Tag(((v as int) % tag_modulus()) as usize)
    }
}

impl From<Tag> for usize {
    fn from(tag: Tag) -> (v: usize)
        ensures
            v == tag@,
    {
        tag.value()
    }
}

impl vstd::std_specs::convert::FromSpecImpl<Tag> for usize {
    open spec fn obeys_from_spec() -> bool {
        true
    }

    closed spec fn from_spec(tag: Tag) -> usize {
        tag.0
    }
}

} // verus!

verus! {

/// Laws of tag arithmetic, stated over tag values (the views of `Tag`).
///
/// Adding `r` to a tag and then subtracting `r` gives the tag back, whatever `r` is.
pub proof fn law_wrapping_add_then_sub(v: int, r: int)
    requires
        0 <= v < tag_modulus(),
    ensures
        (((v + r) % tag_modulus()) - r) % tag_modulus() == v,
{
    assert(TAG_MASK == 0xFFusize);
    vstd::arithmetic::div_mod::lemma_sub_mod_noop(v + r, r, 256);
    vstd::arithmetic::div_mod::lemma_small_mod(v as nat, 256);
}

/// Subtracting `r` from a tag and then adding `r` gives the tag back, whatever `r` is.
pub proof fn law_wrapping_sub_then_add(v: int, r: int)
    requires
        0 <= v < tag_modulus(),
    ensures
        (((v - r) % tag_modulus()) + r) % tag_modulus() == v,
{
    assert(TAG_MASK == 0xFFusize);
    vstd::arithmetic::div_mod::lemma_add_mod_noop(v - r, r, 256);
    vstd::arithmetic::div_mod::lemma_mod_twice(v - r + r, 256);
    vstd::arithmetic::div_mod::lemma_small_mod(v as nat, 256);
}

/// Two wrapping additions in a row are one wrapping addition of the sum.
pub proof fn law_wrapping_add_compose(v: int, a: int, b: int)
    ensures
        (((v + a) % tag_modulus()) + b) % tag_modulus() == (v + a + b) % tag_modulus(),
{
    assert(TAG_MASK == 0xFFusize);
    vstd::arithmetic::div_mod::lemma_add_mod_noop(v + a, b, 256);
    vstd::arithmetic::div_mod::lemma_mod_twice(v + a, 256);
    vstd::arithmetic::div_mod::lemma_add_mod_noop(v + a, b, 256);
}

/// `Tag::new` leaves a tag value unchanged, so re-wrapping the value of a tag gives the same tag.
pub proof fn law_new_keeps_tag_values(v: int)
    requires
        0 <= v < tag_modulus(),
    ensures
        v % tag_modulus() == v,
{
    vstd::arithmetic::div_mod::lemma_small_mod(v as nat, tag_modulus() as nat);
}

/// The tag after the largest tag is zero: counting wraps around.
pub proof fn law_next_of_max_is_zero()
    ensures
        (TAG_MASK + 1) % tag_modulus() == 0,
{
    vstd::arithmetic::div_mod::lemma_mod_self_0(tag_modulus());
}

} // verus!
