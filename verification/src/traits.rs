//! Conversion of the pointer forms that the library accepts into an optional non-null address.
use vstd::prelude::*;

use crate::ptr::{addr_option, Ptr};
use crate::tagged::TaggedPtr;

verus! {

/// Types that stand for a pointer to a `T` that may be null.
pub trait IntoOptionNonNull<T> {
    /// The optional non-null address that `self` stands for.
    spec fn option_non_null(&self) -> Option<u64>;

    /// Converts `self` into the optional non-null address it stands for; never `Some(0)`.
    fn into_option_non_null(self) -> (o: Option<u64>)
        ensures
            o == self.option_non_null(),
            o != Some(0u64),
    ;
}

impl<T> IntoOptionNonNull<T> for Ptr<T> {
    open spec fn option_non_null(&self) -> Option<u64> {
        addr_option(self@)
    }

    fn into_option_non_null(self) -> (o: Option<u64>) {
        self.option()
    }
}

impl<T> IntoOptionNonNull<T> for TaggedPtr<T> {
    open spec fn option_non_null(&self) -> Option<u64> {
        addr_option(self.ptr@)
    }

    fn into_option_non_null(self) -> (o: Option<u64>) {
        self.ptr.option()
    }
}

impl<T> IntoOptionNonNull<T> for u64 {
    /// A raw address: 0 is the null pointer.
    open spec fn option_non_null(&self) -> Option<u64> {
        addr_option(*self)
    }

    fn into_option_non_null(self) -> (o: Option<u64>) {
        if self == 0 {
            None
        } else {
            Some(self)
        }
    }
}

impl<T> IntoOptionNonNull<T> for Option<u64> {
    /// An optional address; `Some(0)`, like `None`, stands for the null pointer.
    open spec fn option_non_null(&self) -> Option<u64> {
        match *self {
            Some(a) => addr_option(a),
            None => None,
        }
    }

    fn into_option_non_null(self) -> (o: Option<u64>) {
        match self {
            Some(a) => if a == 0 {
                None
            } else {
                Some(a)
            },
            None => None,
        }
    }
}

} // verus!
