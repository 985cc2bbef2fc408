//! `AtomicTaggedPtr`: a tagged pointer in one atomic 64-bit word, updated by compare-and-swap.
//!
//! The contracts here fix every word that an operation builds (`pack`, exact) and every value it
//! decodes (`unpack`, exact), and what holds of each outcome of the atomic instruction. They do not
//! state what the shared word holds after an operation: Verus states an atomic's contents only
//! through tracked permissions, which this crate does not use. Which value a call finds, and what
//! it leaves in the slot, is shown by the tests, not proved.
use vstd::prelude::*;

use core::marker::PhantomData;
use core::sync::atomic::AtomicU64;
use core::sync::atomic::Ordering;

use crate::layout::{pack_word, packed, unpack_word, word_addr, word_tag, PTR_MASK, TAG_MASK};
use crate::ptr::{ptr_at, Ptr};
use crate::tag::{tag_modulus, tag_of, Tag};
use crate::tagged::{tagged_at, TaggedPtr};

verus! {

broadcast use crate::ptr::lemma_ptr_at_view, crate::tag::lemma_tag_of_view;

/// Whether `order` may order a load; std panics on `Release` and `AcqRel`.
pub open spec fn load_order_ok(order: Ordering) -> bool {
    order != Ordering::Release && order != Ordering::AcqRel
}

/// Whether `order` may order a store; std panics on `Acquire` and `AcqRel`.
pub open spec fn store_order_ok(order: Ordering) -> bool {
    order != Ordering::Acquire && order != Ordering::AcqRel
}

/// `AtomicU64::load`. It panics on a `Release` or `AcqRel` ordering, which `requires` leaves
/// out. The value read is whatever the word holds at that moment, which other threads may have
/// written, so nothing is stated of it.
#[verifier::external_body]
fn atomic_load(a: &AtomicU64, order: Ordering) -> (w: u64)
    requires
        load_order_ok(order),
{
    a.load(order)
}

/// `AtomicU64::store`. It panics on an `Acquire` or `AcqRel` ordering, which `requires` leaves
/// out.
#[verifier::external_body]
fn atomic_store(a: &AtomicU64, w: u64, order: Ordering)
    requires
        store_order_ok(order),
{
    a.store(w, order)
}

/// `AtomicU64::compare_exchange`. It panics on a `Release` or `AcqRel` failure ordering, which
/// `requires` leaves out. As std documents, it returns `Ok` with the previous value, which then
/// equals `current`, or `Err` with the value it found, which then differs from `current`.
#[verifier::external_body]
fn atomic_compare_exchange(
    a: &AtomicU64,
    current: u64,
    new: u64,
    success: Ordering,
    failure: Ordering,
) -> (r: Result<u64, u64>)
    requires
        load_order_ok(failure),
    ensures
        match r {
            Ok(w) => w == current,
            Err(w) => w != current,
        },
{
    a.compare_exchange(current, new, success, failure)
}

/// `AtomicU64::compare_exchange_weak`. It panics on a `Release` or `AcqRel` failure ordering,
/// which `requires` leaves out. As std documents, an `Ok` holds the previous value, which equals
/// `current`; an `Err` may be spurious, so nothing is stated of its value.
#[verifier::external_body]
fn atomic_compare_exchange_weak(
    a: &AtomicU64,
    current: u64,
    new: u64,
    success: Ordering,
    failure: Ordering,
) -> (r: Result<u64, u64>)
    requires
        load_order_ok(failure),
    ensures
        r matches Ok(w) ==> w == current,
{
    a.compare_exchange_weak(current, new, success, failure)
}

/// `AtomicU64::into_inner`. The value is whatever the word last held, which is not tracked here,
/// so nothing is stated of it.
#[verifier::external_body]
fn atomic_into_inner(a: AtomicU64) -> (w: u64) {
    a.into_inner()
}

/// `AtomicU64::fetch_update`. It panics on a `Release` or `AcqRel` fetch ordering, which
/// `requires` leaves out. As std documents, it applies `g` to the current value until `g`
/// returns `None` or a compare-and-swap from the value `g` saw to `g`'s result succeeds; it
/// returns `Ok` with the value `g` turned into `Some`, or `Err` with the value `g` turned into
/// `None`.
#[verifier::external_body]
fn atomic_fetch_update<G: Fn(u64) -> Option<u64>>(
    a: &AtomicU64,
    set_order: Ordering,
    fetch_order: Ordering,
    g: G,
) -> (r: Result<u64, u64>)
    requires
        load_order_ok(fetch_order),
        forall|w: u64| #[trigger] call_requires(g, (w,)),
    ensures
        match r {
            Ok(w) => exists|n: Option<u64>| n is Some && #[trigger] call_ensures(g, (w,), n),
            Err(w) => call_ensures(g, (w,), None),
        },
{
    a.fetch_update(set_order, fetch_order, g)
}

/// The word that holds address `addr` and tag `tag`.
pub open spec fn encoded(addr: u64, tag: Tag) -> u64 {
    packed(addr, tag@ as u64)
}

/// The tagged pointer that a word holds.
pub open spec fn decoded<T>(w: u64) -> TaggedPtr<T> {
    tagged_at(word_addr(w), word_tag(w) as usize)
}

/// The lock-free backend: the tagged pointer packed into one `AtomicU64`.
pub struct AtomicTaggedPtrImpl<T> {
    bits: AtomicU64,
    marker: PhantomData<T>,
}

impl<T> AtomicTaggedPtrImpl<T> {
    /// Creates the backend holding `ptr` and `tag`; the address must fit in the layout.
    pub fn new(ptr: Ptr<T>, tag: Tag) -> (a: Self)
        requires
            ptr@ <= PTR_MASK,
    {
        let bits = Self::pack(ptr.as_ptr(), tag);
        AtomicTaggedPtrImpl { bits: AtomicU64::new(bits), marker: PhantomData }
    }

    /// Packs an address and a tag into one word. An address with bits above the layout cannot be
    /// packed without truncation; `requires` leaves those out.
    pub fn pack(ptr: u64, tag: Tag) -> (w: u64)
        requires
            ptr <= PTR_MASK,
        ensures
            w == encoded(ptr, tag),
            word_addr(w) == ptr,
            word_tag(w) == tag@,
    {
        let t = tag.value();
        let w = pack_word(ptr, t);
        proof {
            crate::tag::lemma_mask_is_mod(t);
            vstd::arithmetic::div_mod::lemma_small_mod(t as nat, (TAG_MASK + 1) as nat);
            crate::layout::law_unpack_of_pack(ptr, t as u64);
        }
        w
    }

    /// Splits a word into the pointer and the tag it holds.
    pub fn unpack(bits: u64) -> (pt: (Ptr<T>, Tag))
        ensures
            pt.0@ == word_addr(bits),
            pt.1@ == word_tag(bits),
            pt.0 == decoded::<T>(bits).ptr,
            pt.1 == decoded::<T>(bits).tag,
    {
        let (addr, tag) = unpack_word(bits);
        let p = Ptr::from_addr(addr);
        let t = Tag::new(tag);
        proof {
            crate::tag::law_new_keeps_tag_values(tag as int);
            crate::tag::lemma_tag_view_injective(t, crate::tag::tag_of(tag));
        }
        (p, t)
    }

    /// Loads the pointer and the tag. The ordering must not be `Release` or `AcqRel`.
    pub fn load(&self, order: Ordering) -> (pt: (Ptr<T>, Tag))
        requires
            load_order_ok(order),
        ensures
            pt.0@ <= PTR_MASK,
    {
        let bits = atomic_load(&self.bits, order);
        proof {
            crate::layout::law_pack_of_unpack(bits);
        }
        Self::unpack(bits)
    }

    /// Stores a pointer and a tag. The address must fit in the layout, and the ordering must not be
    /// `Acquire` or `AcqRel`.
    pub fn store(&self, ptr: Ptr<T>, tag: Tag, order: Ordering)
        requires
            ptr@ <= PTR_MASK,
            store_order_ok(order),
    {
        let bits = Self::pack(ptr.as_ptr(), tag);
        atomic_store(&self.bits, bits, order);
    }

    /// Replaces `current` by `new` if the slot holds `current`. `Ok` carries the previous value,
    /// which then equals `current`; `Err` carries the value found, which then differs from it.
    pub fn compare_exchange(
        &self,
        current: (Ptr<T>, Tag),
        new: (Ptr<T>, Tag),
        success: Ordering,
        failure: Ordering,
    ) -> (r: Result<(Ptr<T>, Tag), (Ptr<T>, Tag)>)
        requires
            current.0@ <= PTR_MASK,
            new.0@ <= PTR_MASK,
            load_order_ok(failure),
        ensures
            match r {
                Ok(pt) => pt.0@ == current.0@ && pt.1@ == current.1@,
                Err(pt) => pt.0@ <= PTR_MASK && (pt.0@ != current.0@ || pt.1@ != current.1@),
            },
    {
        let cur_bits = Self::pack(current.0.as_ptr(), current.1);
        let new_bits = Self::pack(new.0.as_ptr(), new.1);
        match atomic_compare_exchange(&self.bits, cur_bits, new_bits, success, failure) {
            Ok(bits) => Ok(Self::unpack(bits)),
            Err(bits) => {
                proof {
                    crate::layout::law_pack_of_unpack(bits);
                    crate::layout::law_pack_of_unpack(cur_bits);
                }
                Err(Self::unpack(bits))
            },
        }
    }

    /// Like `compare_exchange`, but may fail spuriously: an `Err` may carry `current` itself.
    pub fn compare_exchange_weak(
        &self,
        current: (Ptr<T>, Tag),
        new: (Ptr<T>, Tag),
        success: Ordering,
        failure: Ordering,
    ) -> (r: Result<(Ptr<T>, Tag), (Ptr<T>, Tag)>)
        requires
            current.0@ <= PTR_MASK,
            new.0@ <= PTR_MASK,
            load_order_ok(failure),
        ensures
            match r {
                Ok(pt) => pt.0@ == current.0@ && pt.1@ == current.1@,
                Err(pt) => pt.0@ <= PTR_MASK,
            },
    {
        let cur_bits = Self::pack(current.0.as_ptr(), current.1);
        let new_bits = Self::pack(new.0.as_ptr(), new.1);
        match atomic_compare_exchange_weak(&self.bits, cur_bits, new_bits, success, failure) {
            Ok(bits) => Ok(Self::unpack(bits)),
            Err(bits) => {
                proof {
                    crate::layout::law_pack_of_unpack(bits);
                }
                Err(Self::unpack(bits))
            },
        }
    }

    /// Stores a pointer and a tag and returns the previous ones.
    pub fn swap(&self, ptr: Ptr<T>, tag: Tag, order: Ordering) -> (pt: (Ptr<T>, Tag))
        requires
            ptr@ <= PTR_MASK,
            order != Ordering::AcqRel,
        ensures
            pt.0@ <= PTR_MASK,
    {
        let bits = Self::pack(ptr.as_ptr(), tag);
        let old_bits = self.bits.swap(bits, order);
        proof {
            crate::layout::law_pack_of_unpack(old_bits);
        }
        Self::unpack(old_bits)
    }

    /// Consumes the backend and returns the pointer and the tag it holds.
    pub fn into_inner(self) -> (pt: (Ptr<T>, Tag))
        ensures
            pt.0@ <= PTR_MASK,
    {
        let bits = atomic_into_inner(self.bits);
        proof {
            crate::layout::law_pack_of_unpack(bits);
        }
        Self::unpack(bits)
    }
}

} // verus!

verus! {

/// The result of a compare-and-swap: `Ok` with the previous value, or `Err` with the value found.
pub type TaggedPtrResult<T> = Result<TaggedPtr<T>, TaggedPtr<T>>;

/// A tagged pointer that threads update atomically: the pointer and its generation tag change
/// together in one compare-and-swap, which guards lock-free structures against the ABA problem.
pub struct AtomicTaggedPtr<T> {
    inner: AtomicTaggedPtrImpl<T>,
}

/// The success and failure orderings of a compare-and-swap loop that runs with `order`.
pub open spec fn split_ordering_spec(order: Ordering) -> (Ordering, Ordering) {
    if order == Ordering::SeqCst {
        (Ordering::SeqCst, Ordering::SeqCst)
    } else if order == Ordering::AcqRel {
        (Ordering::AcqRel, Ordering::Acquire)
    } else if order == Ordering::Acquire {
        (Ordering::Acquire, Ordering::Acquire)
    } else if order == Ordering::Release {
        (Ordering::Release, Ordering::Relaxed)
    } else {
        (order, Ordering::Relaxed)
    }
}

/// Splits one ordering into the success and failure orderings of a compare-and-swap loop.
pub fn split_ordering(order: Ordering) -> (so: (Ordering, Ordering))
    ensures
        so == split_ordering_spec(order),
        load_order_ok(so.1),
{
    match order {
        Ordering::SeqCst => (Ordering::SeqCst, Ordering::SeqCst),
        Ordering::AcqRel => (Ordering::AcqRel, Ordering::Acquire),
        Ordering::Acquire => (Ordering::Acquire, Ordering::Acquire),
        Ordering::Release => (Ordering::Release, Ordering::Relaxed),
        Ordering::Relaxed => (Ordering::Relaxed, Ordering::Relaxed),
        _ => (order, Ordering::Relaxed),
    }
}

impl<T> AtomicTaggedPtr<T> {
    /// Creates an atomic tagged pointer holding `val`; its address must fit in the layout.
    pub fn new(val: TaggedPtr<T>) -> (a: Self)
        requires
            val.ptr@ <= PTR_MASK,
    {
        AtomicTaggedPtr { inner: AtomicTaggedPtrImpl::new(val.ptr, val.tag) }
    }

    /// Loads the pointer and the tag. The ordering must not be `Release` or `AcqRel`.
    pub fn load(&self, order: Ordering) -> (t: TaggedPtr<T>)
        requires
            load_order_ok(order),
        ensures
            t.ptr@ <= PTR_MASK,
    {
        let (ptr, tag) = self.inner.load(order);
        TaggedPtr { ptr, tag }
    }

    /// Stores a pointer and a tag. The address must fit in the layout, and the ordering must not be
    /// `Acquire` or `AcqRel`.
    pub fn store(&self, val: TaggedPtr<T>, order: Ordering)
        requires
            val.ptr@ <= PTR_MASK,
            store_order_ok(order),
    {
        self.inner.store(val.ptr, val.tag, order)
    }

    /// Stores `new` if the current value equals `current`. `Ok` carries the previous value, which
    /// then equals `current`; `Err` carries the value found, which then differs from `current`.
    /// The failure ordering must not be `Release` or `AcqRel`.
    pub fn compare_exchange(
        &self,
        current: TaggedPtr<T>,
        new: TaggedPtr<T>,
        success: Ordering,
        failure: Ordering,
    ) -> (r: TaggedPtrResult<T>)
        requires
            current.ptr@ <= PTR_MASK,
            new.ptr@ <= PTR_MASK,
            load_order_ok(failure),
        ensures
            match r {
                Ok(prev) => prev@ == current@,
                Err(actual) => actual@ != current@ && actual.ptr@ <= PTR_MASK,
            },
    {
        match self.inner.compare_exchange(
            (current.ptr, current.tag),
            (new.ptr, new.tag),
            success,
            failure,
        ) {
            Ok((ptr, tag)) => Ok(TaggedPtr { ptr, tag }),
            Err((ptr, tag)) => Err(TaggedPtr { ptr, tag }),
        }
    }

    /// Like `compare_exchange`, but may fail spuriously: an `Err` may carry `current` itself.
    pub fn compare_exchange_weak(
        &self,
        current: TaggedPtr<T>,
        new: TaggedPtr<T>,
        success: Ordering,
        failure: Ordering,
    ) -> (r: TaggedPtrResult<T>)
        requires
            current.ptr@ <= PTR_MASK,
            new.ptr@ <= PTR_MASK,
            load_order_ok(failure),
        ensures
            match r {
                Ok(prev) => prev@ == current@,
                Err(actual) => actual.ptr@ <= PTR_MASK,
            },
    {
        match self.inner.compare_exchange_weak(
            (current.ptr, current.tag),
            (new.ptr, new.tag),
            success,
            failure,
        ) {
            Ok((ptr, tag)) => Ok(TaggedPtr { ptr, tag }),
            Err((ptr, tag)) => Err(TaggedPtr { ptr, tag }),
        }
    }

    /// Stores `val` and returns the previous value.
    pub fn swap(&self, val: TaggedPtr<T>, order: Ordering) -> (prev: TaggedPtr<T>)
        requires
            val.ptr@ <= PTR_MASK,
            order != Ordering::AcqRel,
        ensures
            prev.ptr@ <= PTR_MASK,
    {
        let (ptr, tag) = self.inner.swap(val.ptr, val.tag, order);
        TaggedPtr { ptr, tag }
    }

    /// Applies `f` to the current value and tries to store what it returns, retrying with the
    /// freshly loaded value when another thread changed the slot in between; stops when `f`
    /// returns `None`. `Ok` carries the value that `f` turned into the stored one; `Err` carries
    /// the value for which `f` returned `None`. The fetch ordering must not be `Release` or
    /// `AcqRel`.
    pub fn fetch_update<F: Fn(TaggedPtr<T>) -> Option<TaggedPtr<T>>>(
        &self,
        set_order: Ordering,
        fetch_order: Ordering,
        f: F,
    ) -> (r: TaggedPtrResult<T>)
        requires
            load_order_ok(fetch_order),
            forall|t: TaggedPtr<T>| t.ptr@ <= PTR_MASK ==> #[trigger] call_requires(f, (t,)),
            forall|t: TaggedPtr<T>, n: TaggedPtr<T>|
                t.ptr@ <= PTR_MASK && #[trigger] call_ensures(f, (t,), Some(n)) ==> n.ptr@
                    <= PTR_MASK,
        ensures
            match r {
                Ok(prev) => prev.ptr@ <= PTR_MASK && exists|n: TaggedPtr<T>|
                    #[trigger] call_ensures(f, (prev,), Some(n)),
                Err(prev) => prev.ptr@ <= PTR_MASK && call_ensures(f, (prev,), None),
            },
    {
        let fr = &f;
        let g = |w: u64| -> (o: Option<u64>)
            requires
                forall|t: TaggedPtr<T>| t.ptr@ <= PTR_MASK ==> #[trigger] call_requires(*fr, (t,)),
                forall|t: TaggedPtr<T>, n: TaggedPtr<T>|
                    t.ptr@ <= PTR_MASK && #[trigger] call_ensures(*fr, (t,), Some(n)) ==> n.ptr@
                        <= PTR_MASK,
            ensures
                match o {
                    Some(nw) => exists|n: TaggedPtr<T>|
                        #[trigger] call_ensures(*fr, (decoded::<T>(w),), Some(n)) && nw
                            == encoded(n.ptr@, n.tag),
                    None => call_ensures(*fr, (decoded::<T>(w),), None),
                },
            {
                let (ptr, tag) = AtomicTaggedPtrImpl::<T>::unpack(w);
                proof {
                    crate::layout::law_pack_of_unpack(w);
                }
                let cur = TaggedPtr { ptr, tag };
                match fr(cur) {
                    Some(next) => Some(AtomicTaggedPtrImpl::<T>::pack(next.ptr.as_ptr(), next.tag)),
                    None => None,
                }
            };
        match atomic_fetch_update(&self.inner.bits, set_order, fetch_order, g) {
            Ok(w) => {
                proof {
                    crate::layout::law_pack_of_unpack(w);
                    let n = choose|n: Option<u64>| n is Some && call_ensures(g, (w,), n);
                    assert(call_ensures(g, (w,), n));
                }
                let (ptr, tag) = AtomicTaggedPtrImpl::<T>::unpack(w);
                Ok(TaggedPtr { ptr, tag })
            },
            Err(w) => {
                proof {
                    crate::layout::law_pack_of_unpack(w);
                }
                let (ptr, tag) = AtomicTaggedPtrImpl::<T>::unpack(w);
                Err(TaggedPtr { ptr, tag })
            },
        }
    }

    /// Adds `val` to the tag, wrapping around, and keeps the pointer.
    /// Returns the value it replaced. This runs a compare-and-swap loop.
    pub fn fetch_add_tag(&self, val: usize, order: Ordering) -> (prev: TaggedPtr<T>)
        ensures
            prev.ptr@ <= PTR_MASK,
    {
        let (success, failure) = split_ordering(order);
        let f = |prev: TaggedPtr<T>| -> (r: Option<TaggedPtr<T>>)
            ensures
                r matches Some(n) && n.ptr == prev.ptr && n.tag@ == (prev.tag@ + val) % tag_modulus(),
            {
                Some(prev.with_tag(prev.tag + val))
            };
        match self.fetch_update(success, failure, f) {
            Ok(prev) => prev,
            Err(prev) => {
                proof {
                    assert(false);
                }
                prev
            },
        }
    }

    /// Subtracts `val` from the tag, wrapping around, and keeps the pointer.
    /// Returns the value it replaced. This runs a compare-and-swap loop.
    pub fn fetch_sub_tag(&self, val: usize, order: Ordering) -> (prev: TaggedPtr<T>)
        ensures
            prev.ptr@ <= PTR_MASK,
    {
        let (success, failure) = split_ordering(order);
        let f = |prev: TaggedPtr<T>| -> (r: Option<TaggedPtr<T>>)
            ensures
                r matches Some(n) && n.ptr == prev.ptr && n.tag@ == (prev.tag@ - val) % tag_modulus(),
            {
                Some(prev.with_tag(prev.tag - val))
            };
        match self.fetch_update(success, failure, f) {
            Ok(prev) => prev,
            Err(prev) => {
                proof {
                    assert(false);
                }
                prev
            },
        }
    }

    /// Replaces the tag by its bitwise AND with `val` and keeps the pointer.
    /// Returns the value it replaced. This runs a compare-and-swap loop.
    pub fn fetch_and_tag(&self, val: usize, order: Ordering) -> (prev: TaggedPtr<T>)
        ensures
            prev.ptr@ <= PTR_MASK,
    {
        let (success, failure) = split_ordering(order);
        let f = |prev: TaggedPtr<T>| -> (r: Option<TaggedPtr<T>>)
            ensures
                r matches Some(n) && n.ptr == prev.ptr && n.tag@ == prev.tag@ & val,
            {
                Some(prev.with_tag(prev.tag & val))
            };
        match self.fetch_update(success, failure, f) {
            Ok(prev) => prev,
            Err(prev) => {
                proof {
                    assert(false);
                }
                prev
            },
        }
    }

    /// Replaces the tag by its bitwise OR with `val`, masked, and keeps the pointer.
    /// Returns the value it replaced. This runs a compare-and-swap loop.
    pub fn fetch_or_tag(&self, val: usize, order: Ordering) -> (prev: TaggedPtr<T>)
        ensures
            prev.ptr@ <= PTR_MASK,
    {
        let (success, failure) = split_ordering(order);
        let f = |prev: TaggedPtr<T>| -> (r: Option<TaggedPtr<T>>)
            ensures
                r matches Some(n) && n.ptr == prev.ptr && n.tag@ == (prev.tag@ | val) & TAG_MASK,
            {
                Some(prev.with_tag(prev.tag | val))
            };
        match self.fetch_update(success, failure, f) {
            Ok(prev) => prev,
            Err(prev) => {
                proof {
                    assert(false);
                }
                prev
            },
        }
    }

    /// Replaces the tag by its bitwise XOR with `val`, masked, and keeps the pointer.
    /// Returns the value it replaced. This runs a compare-and-swap loop.
    pub fn fetch_xor_tag(&self, val: usize, order: Ordering) -> (prev: TaggedPtr<T>)
        ensures
            prev.ptr@ <= PTR_MASK,
    {
        let (success, failure) = split_ordering(order);
        let f = |prev: TaggedPtr<T>| -> (r: Option<TaggedPtr<T>>)
            ensures
                r matches Some(n) && n.ptr == prev.ptr && n.tag@ == (prev.tag@ ^ val) & TAG_MASK,
            {
                Some(prev.with_tag(prev.tag ^ val))
            };
        match self.fetch_update(success, failure, f) {
            Ok(prev) => prev,
            Err(prev) => {
                proof {
                    assert(false);
                }
                prev
            },
        }
    }

    /// Replaces the pointer by `ptr` and keeps the tag; the address must fit in the layout.
    /// Returns the value it replaced. This runs a compare-and-swap loop.
    pub fn fetch_set_ptr(&self, ptr: Ptr<T>, order: Ordering) -> (prev: TaggedPtr<T>)
        requires
            ptr@ <= PTR_MASK,
        ensures
            prev.ptr@ <= PTR_MASK,
    {
        let (success, failure) = split_ordering(order);
        let f = |prev: TaggedPtr<T>| -> (r: Option<TaggedPtr<T>>)
            ensures
                r matches Some(n) && n.ptr == ptr && n.tag == prev.tag,
            {
                Some(prev.with_ptr(ptr))
            };
        match self.fetch_update(success, failure, f) {
            Ok(prev) => prev,
            Err(prev) => {
                proof {
                    assert(false);
                }
                prev
            },
        }
    }

    /// Replaces the tag by `tag` and keeps the pointer.
    /// Returns the value it replaced. This runs a compare-and-swap loop.
    pub fn fetch_set_tag(&self, tag: Tag, order: Ordering) -> (prev: TaggedPtr<T>)
        ensures
            prev.ptr@ <= PTR_MASK,
    {
        let (success, failure) = split_ordering(order);
        let f = |prev: TaggedPtr<T>| -> (r: Option<TaggedPtr<T>>)
            ensures
                r matches Some(n) && n.ptr == prev.ptr && n.tag == tag,
            {
                Some(prev.with_tag(tag))
            };
        match self.fetch_update(success, failure, f) {
            Ok(prev) => prev,
            Err(prev) => {
                proof {
                    assert(false);
                }
                prev
            },
        }
    }

    /// Consumes the atomic and returns the value it holds.
    pub fn into_inner(self) -> (t: TaggedPtr<T>)
        ensures
            t.ptr@ <= PTR_MASK,
    {
        let (ptr, tag) = self.inner.into_inner();
        TaggedPtr { ptr, tag }
    }
}

impl<T> Default for AtomicTaggedPtr<T> {
    /// An atomic tagged pointer holding the null pointer with tag 0.
    fn default() -> (a: Self) {
        AtomicTaggedPtr::new(TaggedPtr::null())
    }
}

} // verus!
