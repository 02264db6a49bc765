//! Internal marker capability that seals [`crate::slice_index::SliceIndex`].
//!
//! The module is private, so code outside this crate cannot name
//! [`Sealed`] and therefore cannot add selector shapes of its own: the set of
//! shapes that may index an [`crate::UnsafeCellSlice`] is closed.

use vstd::prelude::*;

verus! {

/// Marker trait for the closed set of selector shapes.
pub trait Sealed {
}

impl Sealed for usize {
}

impl Sealed for core::ops::Range<usize> {
}

impl Sealed for core::ops::RangeFrom<usize> {
}

impl Sealed for core::ops::RangeFull {
}

impl Sealed for core::ops::RangeInclusive<usize> {
}

impl Sealed for core::ops::RangeTo<usize> {
}

impl Sealed for core::ops::RangeToInclusive<usize> {
}

} // verus!
