//! Closes [`crate::WrapTraced`] to the two shapes this crate implements it for.

use vstd::prelude::*;

use crate::Traced;

verus! {

/// Held by the types that may wrap themselves into a [`Traced`] of `E`.
///
/// This module is private, so no other crate can name this trait, and hence
/// none can implement [`crate::WrapTraced`].
pub trait Sealed<E> {}

impl<E> Sealed<E> for E {}

impl<E> Sealed<E> for Traced<E> {}

} // verus!
