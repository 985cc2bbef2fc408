//! `TaggedPtr`: a pointer paired with a generation tag.
use vstd::prelude::*;

use core::cmp::Ordering;

use vstd::std_specs::cmp::{PartialEqSpecImpl, PartialOrdSpecImpl};
use vstd::std_specs::convert::{FromSpec, FromSpecImpl};

use crate::ptr::{addr_option, addr_order, ptr_at, wrapped_addr, Ptr};
use crate::tag::{tag_of, Tag};

verus! {

/// A pointer and a generation tag, the value that an `AtomicTaggedPtr` holds.
///
/// The derived `Debug` prints the fields as they are stored; `debug_string` gives the own text,
/// `TaggedPtr { ptr: Some(0x..), tag: Tag(0x..) }`.
#[derive(Ord, Hash, Debug)]
pub struct TaggedPtr<T> {
    /// The pointer part.
    pub ptr: Ptr<T>,
    /// The generation tag, for ABA protection.
    pub tag: Tag,
}

impl<T> View for TaggedPtr<T> {
    type V = (u64, usize);

    /// The address of the pointer part and the value of the tag.
    open spec fn view(&self) -> (u64, usize) {
        (self.ptr@, self.tag@)
    }
}

/// The tagged pointer with address `addr` and tag value `tag`.
pub open spec fn tagged_at<T>(addr: u64, tag: usize) -> TaggedPtr<T> {
    TaggedPtr { ptr: ptr_at(addr), tag: tag_of(tag) }
}

impl<T> TaggedPtr<T> {
    /// Pairs a pointer with a tag.
    pub fn new(ptr: Ptr<T>, tag: Tag) -> (t: TaggedPtr<T>)
        ensures
            t.ptr == ptr,
            t.tag == tag,
    {
        TaggedPtr { ptr, tag }
    }

    /// The null pointer with tag 0.
    pub fn null() -> (t: TaggedPtr<T>)
        ensures
            t@ == (0u64, 0usize),
    {
        TaggedPtr { ptr: Ptr::null(), tag: Tag::new(0) }
    }

    /// Casts the pointer part to another pointee type, keeping the address and the tag.
    pub fn cast<U>(self) -> (t: TaggedPtr<U>)
        ensures
            t@ == self@,
    {
        TaggedPtr { ptr: self.ptr.cast(), tag: self.tag }
    }

    /// Splits into the pointer and the tag.
    pub fn decompose(self) -> (pt: (Ptr<T>, Tag))
        ensures
            pt.0 == self.ptr,
            pt.1 == self.tag,
    {
        (self.ptr, self.tag)
    }

    /// The address of the pointer part; 0 when null.
    pub fn as_ptr(self) -> (a: u64)
        ensures
            a == self.ptr@,
    {
        self.ptr.as_ptr()
    }

    /// The address of the pointer part; 0 when null.
    pub fn as_mut_ptr(self) -> (a: u64)
        ensures
            a == self.ptr@,
    {
        self.ptr.as_mut_ptr()
    }

    /// Returns `true` if the pointer part is null.
    pub fn is_null(self) -> (b: bool)
        ensures
            b == (self.ptr@ == 0),
    {
        self.ptr.is_null()
    }

    /// Returns `true` if the pointer part is not null.
    pub fn is_some(self) -> (b: bool)
        ensures
            b == (self.ptr@ != 0),
    {
        self.ptr.is_some()
    }

    /// Returns `true` if the pointer part is null.
    pub fn is_none(self) -> (b: bool)
        ensures
            b == (self.ptr@ == 0),
    {
        self.ptr.is_none()
    }

    /// The same tag with another pointer.
    pub fn with_ptr<U>(self, ptr: Ptr<U>) -> (t: TaggedPtr<U>)
        ensures
            t.ptr == ptr,
            t.tag == self.tag,
    {
        TaggedPtr { ptr, tag: self.tag }
    }

    /// The same pointer with another tag.
    pub fn with_tag(self, tag: Tag) -> (t: TaggedPtr<T>)
        ensures
            t.ptr == self.ptr,
            t.tag == tag,
    {
        TaggedPtr { ptr: self.ptr, tag }
    }

    /// Maps the pointer part through `f`, keeping the tag.
    pub fn map_ptr<U, F: FnOnce(Ptr<T>) -> Ptr<U>>(self, f: F) -> (t: TaggedPtr<U>)
        requires
            call_requires(f, (self.ptr,)),
        ensures
            call_ensures(f, (self.ptr,), t.ptr),
            t.tag == self.tag,
    {
        TaggedPtr { ptr: f(self.ptr), tag: self.tag }
    }

    /// Offsets the pointer part by `count` elements with wrapping arithmetic, keeping the tag.
    pub fn wrapping_offset(self, count: isize) -> (t: TaggedPtr<T>)
        requires
            self.ptr@ != 0 ==> wrapped_addr(self.ptr@, count * vstd::layout::size_of::<T>()) != 0,
        ensures
            self.ptr@ == 0 ==> t.ptr@ == 0,
            self.ptr@ != 0 ==> t.ptr@ == wrapped_addr(
                self.ptr@,
                count * vstd::layout::size_of::<T>(),
            ),
            t.tag == self.tag,
    {
        TaggedPtr { ptr: self.ptr.wrapping_offset(count), tag: self.tag }
    }

    /// Moves the pointer part `count` elements forward with wrapping arithmetic, keeping the tag.
    pub fn wrapping_add(self, count: usize) -> (t: TaggedPtr<T>)
        requires
            self.ptr@ != 0 ==> wrapped_addr(self.ptr@, count * vstd::layout::size_of::<T>()) != 0,
        ensures
            self.ptr@ == 0 ==> t.ptr@ == 0,
            self.ptr@ != 0 ==> t.ptr@ == wrapped_addr(
                self.ptr@,
                count * vstd::layout::size_of::<T>(),
            ),
            t.tag == self.tag,
    {
        TaggedPtr { ptr: self.ptr.wrapping_add(count), tag: self.tag }
    }

    /// Moves the pointer part `count` elements backward with wrapping arithmetic, keeping the tag.
    pub fn wrapping_sub(self, count: usize) -> (t: TaggedPtr<T>)
        requires
            self.ptr@ != 0 ==> wrapped_addr(self.ptr@, -(count * vstd::layout::size_of::<T>()))
                != 0,
        ensures
            self.ptr@ == 0 ==> t.ptr@ == 0,
            self.ptr@ != 0 ==> t.ptr@ == wrapped_addr(
                self.ptr@,
                -(count * vstd::layout::size_of::<T>()),
            ),
            t.tag == self.tag,
    {
        TaggedPtr { ptr: self.ptr.wrapping_sub(count), tag: self.tag }
    }
}

impl<T> Clone for TaggedPtr<T> {
    fn clone(&self) -> (t: Self)
        ensures
            t == *self,
    {
        *self
    }
}

impl<T> Copy for TaggedPtr<T> {

}

impl<T> Default for TaggedPtr<T> {
    /// The null pointer with tag 0.
    fn default() -> (t: Self)
        ensures
            t@ == (0u64, 0usize),
    {
        TaggedPtr::null()
    }
}

impl<T> PartialEq for TaggedPtr<T> {
    fn eq(&self, other: &Self) -> (b: bool) {
        self.ptr == other.ptr && self.tag.value() == other.tag.value()
    }
}

impl<T> PartialEqSpecImpl for TaggedPtr<T> {
    open spec fn obeys_eq_spec() -> bool {
        true
    }

    open spec fn eq_spec(&self, other: &Self) -> bool {
        self@ == other@
    }
}

impl<T> Eq for TaggedPtr<T> {

}

/// The order of two tagged pointers: by address, then by tag.
pub open spec fn tagged_order(a: (u64, usize), b: (u64, usize)) -> Ordering {
    if a.0 != b.0 {
        addr_order(a.0, b.0)
    } else if a.1 < b.1 {
        Ordering::Less
    } else if a.1 > b.1 {
        Ordering::Greater
    } else {
        Ordering::Equal
    }
}

impl<T> PartialOrd for TaggedPtr<T> {
    /// Tagged pointers are ordered by pointer first, then by tag.
    fn partial_cmp(&self, other: &Self) -> (o: Option<Ordering>) {
        let a = self.ptr.as_ptr();
        let b = other.ptr.as_ptr();
        if a < b {
            Some(Ordering::Less)
        } else if a > b {
            Some(Ordering::Greater)
        } else {
            let s = self.tag.value();
            let t = other.tag.value();
            if s < t {
                Some(Ordering::Less)
            } else if s > t {
                Some(Ordering::Greater)
            } else {
                Some(Ordering::Equal)
            }
        }
    }
}

impl<T> PartialOrdSpecImpl for TaggedPtr<T> {
    open spec fn obeys_partial_cmp_spec() -> bool {
        true
    }

    open spec fn partial_cmp_spec(&self, other: &Self) -> Option<Ordering> {
        Some(tagged_order(self@, other@))
    }
}

impl<T> From<(Ptr<T>, Tag)> for TaggedPtr<T> {
    fn from(pt: (Ptr<T>, Tag)) -> (t: TaggedPtr<T>)
        ensures
            t.ptr == pt.0,
            t.tag == pt.1,
    {
        TaggedPtr { ptr: pt.0, tag: pt.1 }
    }
}

impl<T> FromSpecImpl<(Ptr<T>, Tag)> for TaggedPtr<T> {
    open spec fn obeys_from_spec() -> bool {
        true
    }

    open spec fn from_spec(pt: (Ptr<T>, Tag)) -> TaggedPtr<T> {
        TaggedPtr { ptr: pt.0, tag: pt.1 }
    }
}

impl<T> From<(u64, Tag)> for TaggedPtr<T> {
    /// The pointer at a raw address (0 for null) with the given tag.
    fn from(pt: (u64, Tag)) -> (t: TaggedPtr<T>)
        ensures
            t.ptr@ == pt.0,
            t.tag == pt.1,
    {
        TaggedPtr { ptr: Ptr::from(pt.0), tag: pt.1 }
    }
}

impl<T> FromSpecImpl<(u64, Tag)> for TaggedPtr<T> {
    open spec fn obeys_from_spec() -> bool {
        true
    }

    open spec fn from_spec(pt: (u64, Tag)) -> TaggedPtr<T> {
        TaggedPtr { ptr: <Ptr<T> as FromSpec<u64>>::from_spec(pt.0), tag: pt.1 }
    }
}

impl<T> From<TaggedPtr<T>> for (Ptr<T>, Tag) {
    fn from(t: TaggedPtr<T>) -> (pt: (Ptr<T>, Tag))
        ensures
            pt.0 == t.ptr,
            pt.1 == t.tag,
    {
        (t.ptr, t.tag)
    }
}

impl<T> FromSpecImpl<TaggedPtr<T>> for (Ptr<T>, Tag) {
    open spec fn obeys_from_spec() -> bool {
        true
    }

    open spec fn from_spec(t: TaggedPtr<T>) -> (Ptr<T>, Tag) {
        (t.ptr, t.tag)
    }
}

impl<T> From<TaggedPtr<T>> for Ptr<T> {
    fn from(t: TaggedPtr<T>) -> (p: Ptr<T>)
        ensures
            p == t.ptr,
    {
        t.ptr
    }
}

impl<T> FromSpecImpl<TaggedPtr<T>> for Ptr<T> {
    open spec fn obeys_from_spec() -> bool {
        true
    }

    open spec fn from_spec(t: TaggedPtr<T>) -> Ptr<T> {
        t.ptr
    }
}

impl<T> From<TaggedPtr<T>> for u64 {
    /// The address of the pointer part; 0 when null.
    fn from(t: TaggedPtr<T>) -> (a: u64)
        ensures
            a == t.ptr@,
    {
        t.as_ptr()
    }
}

impl<T> FromSpecImpl<TaggedPtr<T>> for u64 {
    open spec fn obeys_from_spec() -> bool {
        true
    }

    open spec fn from_spec(t: TaggedPtr<T>) -> u64 {
        t.ptr@
    }
}

impl<T> From<TaggedPtr<T>> for Option<u64> {
    /// The optional non-null address of the pointer part.
    fn from(t: TaggedPtr<T>) -> (o: Option<u64>)
        ensures
            o == addr_option(t.ptr@),
    {
        t.ptr.option()
    }
}

impl<T> FromSpecImpl<TaggedPtr<T>> for Option<u64> {
    open spec fn obeys_from_spec() -> bool {
        true
    }

    open spec fn from_spec(t: TaggedPtr<T>) -> Option<u64> {
        addr_option(t.ptr@)
    }
}

impl<T> AsRef<Ptr<T>> for TaggedPtr<T> {
    fn as_ref(&self) -> &Ptr<T>
        returns
            &self.ptr,
    {
        &self.ptr
    }
}

impl<T> AsRef<Tag> for TaggedPtr<T> {
    fn as_ref(&self) -> &Tag
        returns
            &self.tag,
    {
        &self.tag
    }
}

} // verus!

verus! {

/// Tagged pointers are totally ordered, by address and then by tag, consistently with equality:
/// two tagged pointers compare `Equal` exactly when both parts are equal, and swapping the
/// operands flips the order.
pub proof fn law_tagged_order_total(a: (u64, usize), b: (u64, usize))
    ensures
        (tagged_order(a, b) == Ordering::Equal) <==> a == b,
        (tagged_order(a, b) == Ordering::Less) <==> (tagged_order(b, a) == Ordering::Greater),
{
    crate::ptr::law_addr_order_total(a.0, b.0);
}

} // verus!

verus! {

impl<T> TaggedPtr<T> {
    /// Offsets the pointer part by `count` elements, keeping the tag; the result must neither wrap
    /// around the address space nor reach address 0.
    pub fn offset(self, count: isize) -> (t: TaggedPtr<T>)
        requires
            self.ptr@ != 0 ==> 0 < self.ptr@ + count * vstd::layout::size_of::<T>()
                < crate::ptr::address_space(),
        ensures
            self.ptr@ == 0 ==> t.ptr@ == 0,
            self.ptr@ != 0 ==> t.ptr@ == self.ptr@ + count * vstd::layout::size_of::<T>(),
            t.tag == self.tag,
    {
        TaggedPtr { ptr: self.ptr.offset(count), tag: self.tag }
    }

    /// Moves the pointer part `count` elements forward, keeping the tag; the result must not wrap
    /// around the address space.
    pub fn add(self, count: usize) -> (t: TaggedPtr<T>)
        requires
            self.ptr@ != 0 ==> self.ptr@ + count * vstd::layout::size_of::<T>()
                < crate::ptr::address_space(),
        ensures
            self.ptr@ == 0 ==> t.ptr@ == 0,
            self.ptr@ != 0 ==> t.ptr@ == self.ptr@ + count * vstd::layout::size_of::<T>(),
            t.tag == self.tag,
    {
        TaggedPtr { ptr: self.ptr.add(count), tag: self.tag }
    }

    /// Moves the pointer part `count` elements backward, keeping the tag; the result must stay
    /// above address 0.
    pub fn sub(self, count: usize) -> (t: TaggedPtr<T>)
        requires
            self.ptr@ != 0 ==> self.ptr@ - count * vstd::layout::size_of::<T>() > 0,
        ensures
            self.ptr@ == 0 ==> t.ptr@ == 0,
            self.ptr@ != 0 ==> t.ptr@ == self.ptr@ - count * vstd::layout::size_of::<T>(),
            t.tag == self.tag,
    {
        TaggedPtr { ptr: self.ptr.sub(count), tag: self.tag }
    }
}

} // verus!
