//! A compile-time assertion that two types are the same.

use core::marker::PhantomData;

use vstd::prelude::*;

verus! {

/// Implemented for `(A, B)` exactly when `A` and `B` are the same type.
pub trait SameTypes {}

impl<T> SameTypes for (T, T) {}

/// Compiles only where `A` and `B` are the same type; does nothing.
pub fn same_types<A, B>(a: PhantomData<A>, b: PhantomData<B>) where (A, B): SameTypes {
}

} // verus!
