# atomic_tagged_ptr

Atomic tagged pointers for lock-free data structures, verified with Verus.

A pointer address and a generation tag share one 64-bit word: the address takes the low 56 bits
(enough for user-space addresses under 57-bit virtual addressing, `0x007F_FFFF_FFFF_FFFF`) and the
tag the high 8 bits. One compare-and-swap updates both, so a slot whose pointer returned to an old
value still refuses a stale swap once its tag has moved on (ABA protection).

Layout of the crate:

- `src/` — the verified library.
  - `layout.rs`: the word layout, packing and unpacking, and the laws that packing loses nothing
    and that every word decodes to a valid tagged pointer.
  - `tag.rs`: `Tag`, a counter kept below `TAG_MASK`, with wrapping arithmetic and bit operators.
  - `ptr.rs`: `Ptr<T>`, a possibly-null pointer modelled by its 64-bit address, with wrapping and
    exact pointer arithmetic.
  - `tagged.rs`: `TaggedPtr<T>`, a pointer and a tag.
  - `atomic.rs`: `AtomicTaggedPtr<T>` over `core::sync::atomic::AtomicU64`: load, store,
    compare-and-swap, swap and the read-modify-write loops (`fetch_update`, `fetch_add_tag`, ...).
  - `traits.rs`: `IntoOptionNonNull`, the pointer forms as optional non-null addresses.
  - `fmt.rs`: the `Debug`, `Display` and `Pointer` texts of tags and pointers.
- `app/` — unverified glue: conversion between `Ptr<T>` and real `NonNull<T>` / raw pointers, and
  the `unsafe` memory accesses through a pointer (`read`, `write`, `copy_to`, ...).
- `tests/` — tests of the library.

Memory orderings that std rejects (a `Release` load, an `Acquire` store, a `Release` failure
ordering) are excluded by the contracts, as are addresses that do not fit in 56 bits.

What is proved of the atomic operations: the words they write are built by `pack` and the words
they read are decoded by `unpack`, both with exact contracts; every value read fits the layout; a
successful compare-and-swap reports exactly `current` and a failed strong one reports a different
value; `fetch_update` returns `Ok` only for a value on which the closure returned `Some`, and `Err`
only for one on which it returned `None`. What the shared word holds after `new`, `store`, `swap`,
a compare-and-swap or a `fetch_*` operation is not proved: Verus states the contents of an atomic
only through tracked permissions, which this crate does not use. So the effect of each `fetch_*_tag`
update (adding, subtracting, masking) and the word that `store` hands to the atomic are stated
inside the function bodies and exercised by the tests, not by a contract.
