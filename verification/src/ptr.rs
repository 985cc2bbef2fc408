//! `Ptr`: a possibly-null pointer, modelled by its address.
use vstd::prelude::*;

use core::cmp::Ordering;
use core::marker::PhantomData;

use vstd::std_specs::cmp::{PartialEqSpecImpl, PartialOrdSpecImpl};
use vstd::std_specs::convert::FromSpecImpl;

verus! {

/// The number of distinct 64-bit addresses; wrapping pointer arithmetic is taken modulo it.
pub open spec fn address_space() -> int {
    0x1_0000_0000_0000_0000
}

/// The address `addr + delta`, wrapped around the 64-bit address space.
pub open spec fn wrapped_addr(addr: u64, delta: int) -> u64 {
    ((addr + delta) % address_space()) as u64
}

/// The optional non-null address that a raw address stands for: 0 is the null pointer.
pub open spec fn addr_option(addr: u64) -> Option<u64> {
    if addr == 0 {
        None
    } else {
        Some(addr)
    }
}

/// A pointer to a `T` that may be null, held as its address (0 for null).
///
/// The derived `Debug` prints the fields; `debug_string` gives the pointer's own text, `None` or
/// `Some(0x..)`, and `pointer_string` its `Pointer` text, `0x..`.
#[derive(Ord, Hash, Debug)]
pub struct Ptr<T> {
    addr: u64,
    marker: PhantomData<T>,
}

impl<T> View for Ptr<T> {
    type V = u64;

    /// The address of the pointer; 0 is the null pointer.
    closed spec fn view(&self) -> u64 {
        self.addr
    }
}

/// The pointer at address `addr`.
pub closed spec fn ptr_at<T>(addr: u64) -> Ptr<T> {
    Ptr { addr, marker: PhantomData }
}

/// The pointer at an address has that address.
pub broadcast proof fn lemma_ptr_at_view<T>(addr: u64)
    ensures
        #[trigger] ptr_at::<T>(addr)@ == addr,
{
}

impl<T> Ptr<T> {
    /// Creates a `Ptr` from an optional non-null address.
    pub fn new(ptr: Option<u64>) -> (p: Ptr<T>)
        requires
            ptr != Some(0u64),
        ensures
            addr_option(p@) == ptr,
    {
        match ptr {
            Some(a) => Ptr { addr: a, marker: PhantomData },
            None => Ptr { addr: 0, marker: PhantomData },
        }
    }

    /// Creates a `Ptr` from a raw address; address 0 gives the null pointer.
    pub fn from_addr(addr: u64) -> (p: Ptr<T>)
        ensures
            p@ == addr,
            p == ptr_at::<T>(addr),
    {
        Ptr { addr, marker: PhantomData }
    }

    /// Creates a null `Ptr`.
    pub fn null() -> (p: Ptr<T>)
        ensures
            p@ == 0,
    {
        Ptr { addr: 0, marker: PhantomData }
    }

    /// Creates a null `Ptr` (alias for `null`).
    pub fn none() -> (p: Ptr<T>)
        ensures
            p@ == 0,
    {
        Ptr { addr: 0, marker: PhantomData }
    }

    /// Casts to a pointer of another type; the address is unchanged.
    pub fn cast<U>(self) -> (p: Ptr<U>)
        ensures
            p@ == self@,
    {
        Ptr { addr: self.addr, marker: PhantomData }
    }

    /// The address as a raw mutable pointer would hold it; 0 when null.
    pub fn as_mut_ptr(self) -> (a: u64)
        ensures
            a == self@,
    {
        self.addr
    }

    /// The address as a raw const pointer would hold it; 0 when null.
    pub fn as_ptr(self) -> (a: u64)
        ensures
            a == self@,
    {
        self.addr
    }

    /// The underlying optional non-null address.
    pub fn option(self) -> (o: Option<u64>)
        ensures
            o == addr_option(self@),
    {
        if self.addr == 0 {
            None
        } else {
            Some(self.addr)
        }
    }

    /// The underlying optional non-null address (alias for `option`).
    pub fn as_option(self) -> (o: Option<u64>)
        ensures
            o == addr_option(self@),
    {
        self.option()
    }

    /// Returns `true` if the pointer is null.
    pub fn is_null(self) -> (b: bool)
        ensures
            b == (self@ == 0),
    {
        self.addr == 0
    }

    /// Returns `true` if the pointer is not null.
    pub fn is_some(self) -> (b: bool)
        ensures
            b == (self@ != 0),
    {
        self.addr != 0
    }

    /// Returns `true` if the pointer is null.
    pub fn is_none(self) -> (b: bool)
        ensures
            b == (self@ == 0),
    {
        self.addr == 0
    }

    /// The non-null address; the pointer must not be null.
    pub fn expect(self, msg: &str) -> (a: u64)
        requires
            self@ != 0,
        ensures
            a == self@,
    {
        self.addr
    }

    /// The non-null address; the pointer must not be null.
    pub fn unwrap(self) -> (a: u64)
        requires
            self@ != 0,
        ensures
            a == self@,
    {
        self.addr
    }

    /// The non-null address, or `default` when the pointer is null.
    pub fn unwrap_or(self, default: u64) -> (a: u64)
        requires
            default != 0,
        ensures
            a == if self@ != 0 { self@ } else { default },
            a != 0,
    {
        if self.addr != 0 {
            self.addr
        } else {
            default
        }
    }

    /// Maps a non-null address through `f`; a null pointer stays null.
    pub fn map<U, F: FnOnce(u64) -> u64>(self, f: F) -> (p: Ptr<U>)
        requires
            self@ != 0 ==> call_requires(f, (self@,)),
            self@ != 0 ==> forall|a: u64| #[trigger] call_ensures(f, (self@,), a) ==> a != 0,
        ensures
            self@ == 0 ==> p@ == 0,
            self@ != 0 ==> call_ensures(f, (self@,), p@),
    {
        if self.addr == 0 {
            Ptr { addr: 0, marker: PhantomData }
        } else {
            Ptr { addr: f(self.addr), marker: PhantomData }
        }
    }

    /// Maps a non-null address through `f`, or returns `default` for a null pointer.
    pub fn map_or<U, F: FnOnce(u64) -> U>(self, default: U, f: F) -> (r: U)
        requires
            self@ != 0 ==> call_requires(f, (self@,)),
        ensures
            self@ == 0 ==> r == default,
            self@ != 0 ==> call_ensures(f, (self@,), r),
    {
        if self.addr == 0 {
            default
        } else {
            f(self.addr)
        }
    }

    /// Maps a non-null address through `f`, or calls `default` for a null pointer.
    pub fn map_or_else<U, D: FnOnce() -> U, F: FnOnce(u64) -> U>(self, default: D, f: F) -> (r: U)
        requires
            self@ == 0 ==> call_requires(default, ()),
            self@ != 0 ==> call_requires(f, (self@,)),
        ensures
            self@ == 0 ==> call_ensures(default, (), r),
            self@ != 0 ==> call_ensures(f, (self@,), r),
    {
        if self.addr == 0 {
            default()
        } else {
            f(self.addr)
        }
    }
}

} // verus!

verus! {

/// Wrapping addition of two addresses is addition modulo the address space.
proof fn lemma_wrapping_add_is_mod(a: u64, b: u64)
    ensures
        vstd::wrapping::u64_specs::wrapping_add(a, b) as int == (a + b) % address_space(),
{
    if a + b > u64::MAX {
        vstd::arithmetic::div_mod::lemma_fundamental_div_mod_converse(
            a + b, address_space(), 1, a + b - address_space());
    } else {
        vstd::arithmetic::div_mod::lemma_small_mod((a + b) as nat, address_space() as nat);
    }
}

/// Wrapping subtraction of two addresses is subtraction modulo the address space.
proof fn lemma_wrapping_sub_is_mod(a: u64, b: u64)
    ensures
        vstd::wrapping::u64_specs::wrapping_sub(a, b) as int == (a - b) % address_space(),
{
    if a - b < 0 {
        vstd::arithmetic::div_mod::lemma_fundamental_div_mod_converse(
            a - b, address_space(), -1, a - b + address_space());
    } else {
        vstd::arithmetic::div_mod::lemma_small_mod((a - b) as nat, address_space() as nat);
    }
}

/// Moving by the reduced byte distance lands where moving by the exact distance does.
proof fn lemma_offset_reduces(addr: u64, dist: int, sign: int)
    requires
        sign == 1 || sign == -1,
        dist >= 0,
    ensures
        ((addr + sign * (dist % address_space())) % address_space()) == (addr + sign * dist)
            % address_space(),
{
    if sign == 1 {
        vstd::arithmetic::div_mod::lemma_add_mod_noop(addr as int, dist, address_space());
        vstd::arithmetic::div_mod::lemma_mod_twice(dist, address_space());
        vstd::arithmetic::div_mod::lemma_add_mod_noop(addr as int, dist % address_space(), address_space());
    } else {
        vstd::arithmetic::div_mod::lemma_sub_mod_noop(addr as int, dist, address_space());
        vstd::arithmetic::div_mod::lemma_mod_twice(dist, address_space());
        vstd::arithmetic::div_mod::lemma_sub_mod_noop(addr as int, dist % address_space(), address_space());
    }
}

impl<T> Ptr<T> {
    /// The address `bytes` bytes after (`forward`) or before this one, wrapping around.
    fn moved_by(self, bytes: u64, forward: bool) -> (p: Ptr<T>)
        ensures
            self@ == 0 ==> p@ == 0,
            self@ != 0 && forward ==> p@ == wrapped_addr(self@, bytes as int),
            self@ != 0 && !forward ==> p@ == wrapped_addr(self@, -(bytes as int)),
    {
        if self.addr == 0 {
            return Ptr { addr: 0, marker: PhantomData };
        }
        if forward {
            proof {
                lemma_wrapping_add_is_mod(self.addr, bytes);
            }
            Ptr { addr: self.addr.wrapping_add(bytes), marker: PhantomData }
        } else {
            proof {
                lemma_wrapping_sub_is_mod(self.addr, bytes);
            }
            Ptr { addr: self.addr.wrapping_sub(bytes), marker: PhantomData }
        }
    }

    /// The byte distance of `count` elements, reduced modulo the address space.
    fn element_bytes(count: u64) -> (b: u64)
        ensures
            b as int == (count * vstd::layout::size_of::<T>()) % address_space(),
    {
        let size = core::mem::size_of::<T>() as u64;
        let b = count.wrapping_mul(size);
        b
    }

    /// Offsets the pointer by `count` elements with wrapping arithmetic; a null pointer stays null.
    pub fn wrapping_offset(self, count: isize) -> (p: Ptr<T>)
        requires
            self@ != 0 ==> wrapped_addr(self@, count * vstd::layout::size_of::<T>()) != 0,
        ensures
            self@ == 0 ==> p@ == 0,
            self@ != 0 ==> p@ == wrapped_addr(self@, count * vstd::layout::size_of::<T>()),
    {
        let ghost size = vstd::layout::size_of::<T>() as int;
        if count >= 0 {
            let bytes = Self::element_bytes(count as u64);
            proof {
                lemma_offset_reduces(self@, count * size, 1);
            }
            self.moved_by(bytes, true)
        } else {
            let magnitude = (0i128 - count as i128) as u64;
            let bytes = Self::element_bytes(magnitude);
            proof {
                assert(magnitude * size == -(count * size)) by (nonlinear_arith)
                    requires magnitude == -count;
                lemma_offset_reduces(self@, magnitude * size, -1);
            }
            self.moved_by(bytes, false)
        }
    }

    /// Moves the pointer `count` elements forward with wrapping arithmetic; null stays null.
    pub fn wrapping_add(self, count: usize) -> (p: Ptr<T>)
        requires
            self@ != 0 ==> wrapped_addr(self@, count * vstd::layout::size_of::<T>()) != 0,
        ensures
            self@ == 0 ==> p@ == 0,
            self@ != 0 ==> p@ == wrapped_addr(self@, count * vstd::layout::size_of::<T>()),
    {
        let bytes = Self::element_bytes(count as u64);
        proof {
            lemma_offset_reduces(self@, count * vstd::layout::size_of::<T>(), 1);
        }
        self.moved_by(bytes, true)
    }

    /// Moves the pointer `count` elements backward with wrapping arithmetic; null stays null.
    pub fn wrapping_sub(self, count: usize) -> (p: Ptr<T>)
        requires
            self@ != 0 ==> wrapped_addr(self@, -(count * vstd::layout::size_of::<T>())) != 0,
        ensures
            self@ == 0 ==> p@ == 0,
            self@ != 0 ==> p@ == wrapped_addr(self@, -(count * vstd::layout::size_of::<T>())),
    {
        let bytes = Self::element_bytes(count as u64);
        proof {
            lemma_offset_reduces(self@, count * vstd::layout::size_of::<T>(), -1);
        }
        self.moved_by(bytes, false)
    }
}

} // verus!

verus! {

impl<T> Clone for Ptr<T> {
    fn clone(&self) -> (p: Self)
        ensures
            p == *self,
    {
        *self
    }
}

impl<T> Copy for Ptr<T> {

}

impl<T> Default for Ptr<T> {
    /// The null pointer.
    fn default() -> (p: Self)
        ensures
            p@ == 0,
    {
        Ptr { addr: 0, marker: PhantomData }
    }
}

impl<T> PartialEq for Ptr<T> {
    fn eq(&self, other: &Self) -> (b: bool) {
        self.addr == other.addr
    }
}

impl<T> PartialEqSpecImpl for Ptr<T> {
    open spec fn obeys_eq_spec() -> bool {
        true
    }

    open spec fn eq_spec(&self, other: &Self) -> bool {
        self@ == other@
    }
}

impl<T> Eq for Ptr<T> {

}

impl<T> PartialEq<Option<u64>> for Ptr<T> {
    /// Compares with an optional non-null address.
    fn eq(&self, other: &Option<u64>) -> (b: bool) {
        self.option() == *other
    }
}

impl<T> PartialEqSpecImpl<Option<u64>> for Ptr<T> {
    open spec fn obeys_eq_spec() -> bool {
        true
    }

    open spec fn eq_spec(&self, other: &Option<u64>) -> bool {
        addr_option(self@) == *other
    }
}

impl<T> PartialEq<u64> for Ptr<T> {
    /// Compares with a raw address (0 for null).
    fn eq(&self, other: &u64) -> (b: bool) {
        self.addr == *other
    }
}

impl<T> PartialEqSpecImpl<u64> for Ptr<T> {
    open spec fn obeys_eq_spec() -> bool {
        true
    }

    open spec fn eq_spec(&self, other: &u64) -> bool {
        self@ == *other
    }
}

/// The order of two addresses.
pub open spec fn addr_order(a: u64, b: u64) -> Ordering {
    if a < b {
        Ordering::Less
    } else if a > b {
        Ordering::Greater
    } else {
        Ordering::Equal
    }
}

impl<T> PartialOrd for Ptr<T> {
    /// Pointers are ordered by their addresses.
    fn partial_cmp(&self, other: &Self) -> (o: Option<Ordering>) {
        if self.addr < other.addr {
            Some(Ordering::Less)
        } else if self.addr > other.addr {
            Some(Ordering::Greater)
        } else {
            Some(Ordering::Equal)
        }
    }
}

impl<T> PartialOrdSpecImpl for Ptr<T> {
    open spec fn obeys_partial_cmp_spec() -> bool {
        true
    }

    open spec fn partial_cmp_spec(&self, other: &Self) -> Option<Ordering> {
        Some(addr_order(self@, other@))
    }
}

impl<T> From<u64> for Ptr<T> {
    /// The pointer at a raw address; address 0 gives the null pointer.
    fn from(addr: u64) -> (p: Ptr<T>)
        ensures
            p@ == addr,
    {
        Ptr::from_addr(addr)
    }
}

impl<T> FromSpecImpl<u64> for Ptr<T> {
    open spec fn obeys_from_spec() -> bool {
        true
    }

    closed spec fn from_spec(addr: u64) -> Ptr<T> {
        Ptr { addr, marker: PhantomData }
    }
}

} // verus!

verus! {

impl<T> From<Ptr<T>> for u64 {
    /// The address of the pointer; 0 when null.
    fn from(p: Ptr<T>) -> (a: u64)
        ensures
            a == p@,
    {
        p.as_ptr()
    }
}

impl<T> FromSpecImpl<Ptr<T>> for u64 {
    open spec fn obeys_from_spec() -> bool {
        true
    }

    open spec fn from_spec(p: Ptr<T>) -> u64 {
        p@
    }
}

impl<T> From<Ptr<T>> for Option<u64> {
    /// The optional non-null address of the pointer.
    fn from(p: Ptr<T>) -> (o: Option<u64>)
        ensures
            o == addr_option(p@),
    {
        p.option()
    }
}

impl<T> FromSpecImpl<Ptr<T>> for Option<u64> {
    open spec fn obeys_from_spec() -> bool {
        true
    }

    open spec fn from_spec(p: Ptr<T>) -> Option<u64> {
        addr_option(p@)
    }
}

} // verus!

verus! {

/// Moving a pointer by a distance and then back by the same distance gives the pointer back,
/// whatever the distance: `wrapping_add(n)` followed by `wrapping_sub(n)` (or `wrapping_offset`
/// by `n` and then by `-n`) is the identity on addresses.
pub proof fn law_wrapped_move_and_back(addr: u64, delta: int)
    ensures
        wrapped_addr(wrapped_addr(addr, delta), -delta) == addr,
{
    let m = address_space();
    let once = (addr + delta) % m;
    vstd::arithmetic::div_mod::lemma_mod_bound(addr + delta, m);
    vstd::arithmetic::div_mod::lemma_sub_mod_noop(addr + delta, delta, m);
    vstd::arithmetic::div_mod::lemma_mod_twice(addr + delta, m);
    vstd::arithmetic::div_mod::lemma_sub_mod_noop(once, delta, m);
    vstd::arithmetic::div_mod::lemma_small_mod(addr as nat, m as nat);
}

/// Pointers are totally ordered by address, consistently with equality: two pointers compare
/// `Equal` exactly when their addresses are equal, and swapping the operands flips the order.
pub proof fn law_addr_order_total(a: u64, b: u64)
    ensures
        (addr_order(a, b) == Ordering::Equal) <==> a == b,
        (addr_order(a, b) == Ordering::Less) <==> (addr_order(b, a) == Ordering::Greater),
{
}

} // verus!

verus! {

impl<T> Ptr<T> {
    /// Offsets the pointer by `count` elements; the result must neither wrap around the address
    /// space nor reach address 0. A null pointer stays null.
    pub fn offset(self, count: isize) -> (p: Ptr<T>)
        requires
            self@ != 0 ==> 0 < self@ + count * vstd::layout::size_of::<T>() < address_space(),
        ensures
            self@ == 0 ==> p@ == 0,
            self@ != 0 ==> p@ == self@ + count * vstd::layout::size_of::<T>(),
    {
        proof {
            if self@ != 0 {
                vstd::arithmetic::div_mod::lemma_small_mod(
                    (self@ + count * vstd::layout::size_of::<T>()) as nat,
                    address_space() as nat,
                );
            }
        }
        self.wrapping_offset(count)
    }

    /// Moves the pointer `count` elements forward; the result must not wrap around the address
    /// space. A null pointer stays null.
    pub fn add(self, count: usize) -> (p: Ptr<T>)
        requires
            self@ != 0 ==> self@ + count * vstd::layout::size_of::<T>() < address_space(),
        ensures
            self@ == 0 ==> p@ == 0,
            self@ != 0 ==> p@ == self@ + count * vstd::layout::size_of::<T>(),
    {
        proof {
            if self@ != 0 {
                vstd::arithmetic::div_mod::lemma_small_mod(
                    (self@ + count * vstd::layout::size_of::<T>()) as nat,
                    address_space() as nat,
                );
            }
        }
        self.wrapping_add(count)
    }

    /// Moves the pointer `count` elements backward; the result must stay above address 0. A null
    /// pointer stays null.
    pub fn sub(self, count: usize) -> (p: Ptr<T>)
        requires
            self@ != 0 ==> self@ - count * vstd::layout::size_of::<T>() > 0,
        ensures
            self@ == 0 ==> p@ == 0,
            self@ != 0 ==> p@ == self@ - count * vstd::layout::size_of::<T>(),
    {
        proof {
            if self@ != 0 {
                vstd::arithmetic::div_mod::lemma_small_mod(
                    (self@ - count * vstd::layout::size_of::<T>()) as nat,
                    address_space() as nat,
                );
            }
        }
        self.wrapping_sub(count)
    }
}

} // verus!

verus! {

impl<T> From<Option<u64>> for Ptr<T> {
    /// The pointer at an optional non-null address; `None`, like address 0, gives the null
    /// pointer.
    fn from(addr: Option<u64>) -> (p: Ptr<T>)
        ensures
            p@ == match addr {
                Some(a) => a,
                None => 0,
            },
    {
        match addr {
            Some(a) => Ptr::from_addr(a),
            None => Ptr::null(),
        }
    }
}

impl<T> FromSpecImpl<Option<u64>> for Ptr<T> {
    open spec fn obeys_from_spec() -> bool {
        true
    }

    closed spec fn from_spec(addr: Option<u64>) -> Ptr<T> {
        Ptr {
            addr: match addr {
                Some(a) => a,
                None => 0,
            },
            marker: PhantomData,
        }
    }
}

} // verus!
