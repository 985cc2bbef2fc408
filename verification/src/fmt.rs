//! Text forms of tags and pointers, as their `Debug`, `Display` and `Pointer` formatting shows
//! them.
use vstd::prelude::*;

use crate::atomic::AtomicTaggedPtr;
use crate::layout::{PTR_MASK, TAG_MASK};
use crate::ptr::Ptr;
use crate::tag::Tag;
use crate::tagged::TaggedPtr;

verus! {

/// `String::push`: appends `c` to the string.
#[verifier::external_body]
fn string_push(s: &mut String, c: char)
    ensures
        final(s)@ == old(s)@.push(c),
{
    s.push(c)
}

/// The character of digit `d` (below 16); letters are upper case when `upper` holds.
pub open spec fn digit_char(d: nat, upper: bool) -> char {
    if d < 10 {
        (48 + d) as char
    } else if upper {
        (55 + d) as char
    } else {
        (87 + d) as char
    }
}

/// The digits of `v` in base `base`, most significant first, without leading zeros.
pub open spec fn radix_digits(v: nat, base: nat, upper: bool) -> Seq<char>
    decreases v,
{
    if base < 2 || v < base {
        seq![digit_char(v, upper)]
    } else {
        proof {
            vstd::arithmetic::div_mod::lemma_div_decreases(v as int, base as int);
        }
        radix_digits(v / base, base, upper).push(digit_char(v % base, upper))
    }
}

/// The hexadecimal digits of `v`, upper case, as `{:X}` shows them.
pub open spec fn upper_hex(v: nat) -> Seq<char> {
    radix_digits(v, 16, true)
}

/// The hexadecimal digits of `v`, lower case, as `{:x}` shows them.
pub open spec fn lower_hex(v: nat) -> Seq<char> {
    radix_digits(v, 16, false)
}

/// The decimal digits of `v`, as `{}` shows them.
pub open spec fn decimal(v: nat) -> Seq<char> {
    radix_digits(v, 10, false)
}

/// The text of a tag as `Debug` shows it: `Tag(0x..)` with upper-case hexadecimal digits.
pub open spec fn tag_debug_text(v: nat) -> Seq<char> {
    seq!['T', 'a', 'g', '(', '0', 'x'] + upper_hex(v) + seq![')']
}

/// The text of an address as `{:p}` shows it: `0x..` with lower-case hexadecimal digits.
pub open spec fn pointer_text(addr: nat) -> Seq<char> {
    seq!['0', 'x'] + lower_hex(addr)
}

/// The text of a pointer as `Debug` shows an optional non-null pointer.
pub open spec fn ptr_debug_text(addr: nat) -> Seq<char> {
    if addr == 0 {
        seq!['N', 'o', 'n', 'e']
    } else {
        seq!['S', 'o', 'm', 'e', '('] + pointer_text(addr) + seq![')']
    }
}

/// The character of digit `d`.
fn digit(d: u64, upper: bool) -> (c: char)
    requires
        d < 16,
    ensures
        c == digit_char(d as nat, upper),
{
    if d < 10 {
        ((48 + d) as u8) as char
    } else if upper {
        ((55 + d) as u8) as char
    } else {
        ((87 + d) as u8) as char
    }
}

/// Appends the digits of `v` in base `base`.
fn push_radix(s: &mut String, v: u64, base: u64, upper: bool)
    requires
        2 <= base <= 16,
    ensures
        final(s)@ == old(s)@ + radix_digits(v as nat, base as nat, upper),
    decreases v,
{
    if v >= base {
        proof {
            vstd::arithmetic::div_mod::lemma_div_decreases(v as int, base as int);
        }
        push_radix(s, v / base, base, upper);
    }
    string_push(s, digit(v % base, upper));
    proof {
        if v >= base {
            assert(radix_digits(v as nat, base as nat, upper) == radix_digits(
                (v / base) as nat,
                base as nat,
                upper,
            ).push(digit_char((v % base) as nat, upper)));
        } else {
            vstd::arithmetic::div_mod::lemma_small_mod(v as nat, base as nat);
        }
    }
}

/// Appends the characters of `cs`.
fn push_chars(s: &mut String, cs: &[char])
    ensures
        final(s)@ == old(s)@ + cs@,
{
    let mut i: usize = 0;
    while i < cs.len()
        invariant
            i <= cs@.len(),
            s@ == old(s)@ + cs@.subrange(0, i as int),
        decreases cs@.len() - i,
    {
        string_push(s, cs[i]);
        proof {
            assert(cs@.subrange(0, i + 1) == cs@.subrange(0, i as int).push(cs@[i as int]));
        }
        i = i + 1;
    }
    proof {
        assert(cs@.subrange(0, cs@.len() as int) == cs@);
    }
}

/// Appends the `Debug` text of a pointer at `addr`.
fn push_ptr_debug(s: &mut String, addr: u64)
    ensures
        final(s)@ == old(s)@ + ptr_debug_text(addr as nat),
{
    if addr == 0 {
        push_chars(s, &['N', 'o', 'n', 'e']);
    } else {
        push_chars(s, &['S', 'o', 'm', 'e', '(', '0', 'x']);
        push_radix(s, addr, 16, false);
        push_chars(s, &[')']);
    }
}

/// Appends the `Debug` text of a tag value.
fn push_tag_debug(s: &mut String, v: usize)
    ensures
        final(s)@ == old(s)@ + tag_debug_text(v as nat),
{
    push_chars(s, &['T', 'a', 'g', '(', '0', 'x']);
    push_radix(s, v as u64, 16, true);
    push_chars(s, &[')']);
}

impl Tag {
    /// The `Debug` text of the tag, such as `Tag(0x58)`.
    pub fn debug_string(&self) -> (s: String)
        ensures
            s@ == tag_debug_text(self@ as nat),
    {
        let mut s = String::new();
        push_tag_debug(&mut s, self.value());
        s
    }

    /// The `Display` text of the tag: its value in decimal.
    pub fn to_string(&self) -> (s: String)
        ensures
            s@ == decimal(self@ as nat),
    {
        let mut s = String::new();
        push_radix(&mut s, self.value() as u64, 10, false);
        s
    }
}

impl<T> Ptr<T> {
    /// The `Debug` text of the pointer: `None`, or `Some(0x..)` with its address.
    pub fn debug_string(&self) -> (s: String)
        ensures
            s@ == ptr_debug_text(self@ as nat),
    {
        let mut s = String::new();
        push_ptr_debug(&mut s, self.as_ptr());
        s
    }

    /// The `Pointer` text of the pointer: its address in hexadecimal, `0x0` when null.
    pub fn pointer_string(&self) -> (s: String)
        ensures
            s@ == pointer_text(self@ as nat),
    {
        let mut s = String::new();
        push_chars(&mut s, &['0', 'x']);
        push_radix(&mut s, self.as_ptr(), 16, false);
        s
    }
}

impl<T> TaggedPtr<T> {
    /// The `Debug` text: `TaggedPtr { ptr: .., tag: .. }`.
    pub fn debug_string(&self) -> (s: String)
        ensures
            s@ == seq!['T', 'a', 'g', 'g', 'e', 'd', 'P', 't', 'r', ' ', '{', ' ', 'p', 't', 'r', ':', ' ']
                + ptr_debug_text(self.ptr@ as nat) + seq![',', ' ', 't', 'a', 'g', ':', ' ']
                + tag_debug_text(self.tag@ as nat) + seq![' ', '}'],
    {
        let mut s = String::new();
        push_chars(&mut s, &['T', 'a', 'g', 'g', 'e', 'd', 'P', 't', 'r', ' ', '{', ' ', 'p', 't', 'r', ':', ' ']);
        push_ptr_debug(&mut s, self.ptr.as_ptr());
        push_chars(&mut s, &[',', ' ', 't', 'a', 'g', ':', ' ']);
        push_tag_debug(&mut s, self.tag.value());
        push_chars(&mut s, &[' ', '}']);
        s
    }

    /// The `Pointer` text of the pointer part.
    pub fn pointer_string(&self) -> (s: String)
        ensures
            s@ == pointer_text(self.ptr@ as nat),
    {
        self.ptr.pointer_string()
    }
}

impl<T> AtomicTaggedPtr<T> {
    /// The `Debug` text of a snapshot loaded with `Relaxed` ordering:
    /// `AtomicTaggedPtr { pointer: .., tag: .. }`.
    pub fn debug_string(&self) -> (s: String)
        ensures
            exists|a: nat, t: nat|
                a <= PTR_MASK && t <= TAG_MASK && s@ == seq!['A', 't', 'o', 'm', 'i', 'c', 'T', 'a', 'g', 'g', 'e', 'd', 'P', 't', 'r', ' ', '{', ' ', 'p', 'o', 'i', 'n', 't', 'e', 'r', ':', ' ']
                    + #[trigger] ptr_debug_text(a) + seq![',', ' ', 't', 'a', 'g', ':', ' ']
                    + #[trigger] tag_debug_text(t) + seq![' ', '}'],
    {
        let val = self.load(core::sync::atomic::Ordering::Relaxed);
        let mut s = String::new();
        push_chars(&mut s, &['A', 't', 'o', 'm', 'i', 'c', 'T', 'a', 'g', 'g', 'e', 'd', 'P', 't', 'r', ' ', '{', ' ', 'p', 'o', 'i', 'n', 't', 'e', 'r', ':', ' ']);
        push_ptr_debug(&mut s, val.ptr.as_ptr());
        push_chars(&mut s, &[',', ' ', 't', 'a', 'g', ':', ' ']);
        push_tag_debug(&mut s, val.tag.value());
        push_chars(&mut s, &[' ', '}']);
        s
    }
}

} // verus!
