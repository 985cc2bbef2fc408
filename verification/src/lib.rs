//! Atomic tagged pointers for lock-free data structures.
//!
//! A pointer address and a generation tag share one 64-bit word, so a single compare-and-swap
//! updates both: a slot whose pointer came back to an old value still fails the swap when its tag
//! moved on, which guards structures such as a Treiber stack against the ABA problem.
//!
//! Modules:
//! - `layout`: the bit layout of a word (56 address bits, 8 tag bits) and its packing laws;
//! - `tag`: the generation tag and its wrapping arithmetic;
//! - `ptr`: a possibly-null pointer, modelled by its address;
//! - `tagged`: a pointer paired with a tag;
//! - `atomic`: the atomic slot and its compare-and-swap operations;
//! - `traits`: conversion of the pointer forms into an optional non-null address;
//! - `fmt`: the text forms of tags and pointers.
use vstd::prelude::*;

pub mod atomic;
pub mod fmt;
pub mod layout;
pub mod ptr;
pub mod tag;
pub mod tagged;
pub mod traits;

pub use atomic::{AtomicTaggedPtr, TaggedPtrResult};
pub use layout::TAG_MASK;
pub use ptr::Ptr;
pub use tag::Tag;
pub use tagged::TaggedPtr;
pub use traits::IntoOptionNonNull;

verus! {

} // verus!
