//! Selector shapes for indexing into an [`UnsafeCellSlice`].
//!
//! A selector describes a position or range of positions within a buffer.
//! Each shape carries its own boundary rule against the buffer length `n`:
//!
//! | shape                 | valid when          | resolved span        |
//! |-----------------------|---------------------|----------------------|
//! | `i` (single position) | `i < n`             | `[i, i+1)`           |
//! | `s..e`                | `e <= n && s <= e`  | `[s, e)`             |
//! | `s..`                 | `s <= n`            | `[s, n)`             |
//! | `..`                  | always              | `[0, n)`             |
//! | `s..=e`               | `e < n && s <= e`   | `[s, e+1)`           |
//! | `..e`                 | `e <= n`            | `[0, e)`             |
//! | `..=e`                | `e < n`             | `[0, e+1)`           |
//!
//! An empty resolved span is valid: `s..s`, `n..` and `..` on an empty buffer
//! all yield a zero-length view rather than a failure.
//!
//! The trait is sealed: only the seven shapes above can index a buffer.

use vstd::prelude::*;

use crate::SubsliceView;
use crate::UnsafeCellSlice;
use crate::private_slice_index::Sealed;

verus! {

/// The window a selector resolves to against a buffer of `n` slots, given
/// that its boundary rule holds there.
pub open spec fn resolved_view<T, I: SliceIndex<T>>(sel: &I, n: int) -> SubsliceView {
    SubsliceView { start: sel.spec_start(n) as usize, len: sel.spec_len(n) as usize }
}

/// What a checked lookup of `sel` returns against a buffer of `n` slots: a
/// total function of the selector and the length alone.
pub open spec fn spec_lookup<T, I: SliceIndex<T>>(sel: &I, n: int) -> Option<SubsliceView> {
    if sel.spec_in_bounds(n) {
        Some(resolved_view(sel, n))
    } else {
        None
    }
}

/// A trait for indexing into an [`UnsafeCellSlice`].
///
/// Both lookup operations resolve the selector against the buffer length and
/// yield a [`SubsliceView`] descriptor of the resolved span; neither touches
/// the buffer contents. The checked lookup ([`get_mut`](Self::get_mut))
/// returns `None` exactly when the shape's boundary rule is violated; the
/// asserting lookup ([`index_mut`](Self::index_mut)) requires the rule to
/// hold up front.
pub trait SliceIndex<T>: Sealed + Sized {
    /// The boundary rule of this selector shape against a buffer of `n`
    /// slots.
    spec fn spec_in_bounds(&self, n: int) -> bool;

    /// First slot of the resolved span.
    spec fn spec_start(&self, n: int) -> int;

    /// Length of the resolved span.
    spec fn spec_len(&self, n: int) -> int;

    /// A valid selector resolves to a span that lies within the buffer.
    proof fn lemma_resolved_fits(&self, n: int)
        requires
            0 <= n,
            self.spec_in_bounds(n),
        ensures
            0 <= self.spec_start(n),
            0 <= self.spec_len(n),
            self.spec_start(n) + self.spec_len(n) <= n,
    ;

    /// Checked lookup: the view over the resolved span, or `None` if this
    /// selector violates its boundary rule on `slice`.
    fn get_mut(self, slice: &UnsafeCellSlice<T>) -> (r: Option<SubsliceView>)
        ensures
            self.spec_in_bounds(slice@.len() as int) ==> r == Some(
                (SubsliceView {
                    start: self.spec_start(slice@.len() as int) as usize,
                    len: self.spec_len(slice@.len() as int) as usize,
                }),
            ),
            !self.spec_in_bounds(slice@.len() as int) ==> r is None,
    ;

    /// Asserting lookup: the view over the resolved span. Out-of-bounds
    /// selectors are ruled out up front.
    fn index_mut(self, slice: &UnsafeCellSlice<T>) -> (v: SubsliceView)
        requires
            self.spec_in_bounds(slice@.len() as int),
        ensures
            v == (SubsliceView {
                start: self.spec_start(slice@.len() as int) as usize,
                len: self.spec_len(slice@.len() as int) as usize,
            }),
    ;
}

impl<T> SliceIndex<T> for usize {
    open spec fn spec_in_bounds(&self, n: int) -> bool {
        (*self as int) < n
    }

    open spec fn spec_start(&self, n: int) -> int {
        *self as int
    }

    open spec fn spec_len(&self, n: int) -> int {
        1
    }

    proof fn lemma_resolved_fits(&self, n: int) {
    }

    fn get_mut(self, slice: &UnsafeCellSlice<T>) -> (r: Option<SubsliceView>) {
        if self < slice.len() {
            Some(SubsliceView { start: self, len: 1 })
        } else {
            None
        }
    }

    fn index_mut(self, slice: &UnsafeCellSlice<T>) -> (v: SubsliceView) {
        SubsliceView { start: self, len: 1 }
    }
}

impl<T> SliceIndex<T> for core::ops::Range<usize> {
    open spec fn spec_in_bounds(&self, n: int) -> bool {
        self.end <= n && self.start <= self.end
    }

    open spec fn spec_start(&self, n: int) -> int {
        self.start as int
    }

    open spec fn spec_len(&self, n: int) -> int {
        self.end - self.start
    }

    proof fn lemma_resolved_fits(&self, n: int) {
    }

    fn get_mut(self, slice: &UnsafeCellSlice<T>) -> (r: Option<SubsliceView>) {
        if self.end <= slice.len() && self.start <= self.end {
            Some(SubsliceView { start: self.start, len: self.end - self.start })
        } else {
            None
        }
    }

    fn index_mut(self, slice: &UnsafeCellSlice<T>) -> (v: SubsliceView) {
        SubsliceView { start: self.start, len: self.end - self.start }
    }
}

impl<T> SliceIndex<T> for core::ops::RangeFrom<usize> {
    open spec fn spec_in_bounds(&self, n: int) -> bool {
        self.start <= n
    }

    open spec fn spec_start(&self, n: int) -> int {
        self.start as int
    }

    open spec fn spec_len(&self, n: int) -> int {
        n - self.start
    }

    proof fn lemma_resolved_fits(&self, n: int) {
    }

    fn get_mut(self, slice: &UnsafeCellSlice<T>) -> (r: Option<SubsliceView>) {
        let n = slice.len();
        if self.start <= n {
            Some(SubsliceView { start: self.start, len: n - self.start })
        } else {
            None
        }
    }

    fn index_mut(self, slice: &UnsafeCellSlice<T>) -> (v: SubsliceView) {
        let n = slice.len();
        SubsliceView { start: self.start, len: n - self.start }
    }
}

impl<T> SliceIndex<T> for core::ops::RangeFull {
    open spec fn spec_in_bounds(&self, n: int) -> bool {
        true
    }

    open spec fn spec_start(&self, n: int) -> int {
        0
    }

    open spec fn spec_len(&self, n: int) -> int {
        n
    }

    proof fn lemma_resolved_fits(&self, n: int) {
    }

    fn get_mut(self, slice: &UnsafeCellSlice<T>) -> (r: Option<SubsliceView>) {
        Some(SubsliceView { start: 0, len: slice.len() })
    }

    fn index_mut(self, slice: &UnsafeCellSlice<T>) -> (v: SubsliceView) {
        SubsliceView { start: 0, len: slice.len() }
    }
}

impl<T> SliceIndex<T> for core::ops::RangeInclusive<usize> {
    open spec fn spec_in_bounds(&self, n: int) -> bool {
        self@.end < n && self@.start <= self@.end
    }

    open spec fn spec_start(&self, n: int) -> int {
        self@.start as int
    }

    open spec fn spec_len(&self, n: int) -> int {
        self@.end - self@.start + 1
    }

    proof fn lemma_resolved_fits(&self, n: int) {
    }

    fn get_mut(self, slice: &UnsafeCellSlice<T>) -> (r: Option<SubsliceView>) {
        let s = *self.start();
        let e = *self.end();
        if e < slice.len() && s <= e {
            Some(SubsliceView { start: s, len: e - s + 1 })
        } else {
            None
        }
    }

    fn index_mut(self, slice: &UnsafeCellSlice<T>) -> (v: SubsliceView) {
        // Binding the length brings `end < len <= usize::MAX` into scope,
        // so the `+ 1` below cannot overflow.
        let _n = slice.len();
        let s = *self.start();
        let e = *self.end();
        SubsliceView { start: s, len: e - s + 1 }
    }
}

impl<T> SliceIndex<T> for core::ops::RangeTo<usize> {
    open spec fn spec_in_bounds(&self, n: int) -> bool {
        self.end <= n
    }

    open spec fn spec_start(&self, n: int) -> int {
        0
    }

    open spec fn spec_len(&self, n: int) -> int {
        self.end as int
    }

    proof fn lemma_resolved_fits(&self, n: int) {
    }

    fn get_mut(self, slice: &UnsafeCellSlice<T>) -> (r: Option<SubsliceView>) {
        if self.end <= slice.len() {
            Some(SubsliceView { start: 0, len: self.end })
        } else {
            None
        }
    }

    fn index_mut(self, slice: &UnsafeCellSlice<T>) -> (v: SubsliceView) {
        SubsliceView { start: 0, len: self.end }
    }
}

impl<T> SliceIndex<T> for core::ops::RangeToInclusive<usize> {
    open spec fn spec_in_bounds(&self, n: int) -> bool {
        self.end < n
    }

    open spec fn spec_start(&self, n: int) -> int {
        0
    }

    open spec fn spec_len(&self, n: int) -> int {
        self.end + 1
    }

    proof fn lemma_resolved_fits(&self, n: int) {
    }

    fn get_mut(self, slice: &UnsafeCellSlice<T>) -> (r: Option<SubsliceView>) {
        if self.end < slice.len() {
            Some(SubsliceView { start: 0, len: self.end + 1 })
        } else {
            None
        }
    }

    fn index_mut(self, slice: &UnsafeCellSlice<T>) -> (v: SubsliceView) {
        // Binding the length brings `end < len <= usize::MAX` into scope,
        // so the `+ 1` below cannot overflow.
        let _n = slice.len();
        SubsliceView { start: 0, len: self.end + 1 }
    }
}

/// For every selector shape, the window a valid selector resolves to lies
/// entirely within the buffer, so reads and writes through it stay in
/// bounds.
pub proof fn lemma_resolved_view_fits<T, I: SliceIndex<T>>(sel: &I, n: int)
    requires
        0 <= n <= usize::MAX,
        sel.spec_in_bounds(n),
    ensures
        resolved_view::<T, I>(sel, n).fits(n),
{
    sel.lemma_resolved_fits(n);
}

/// The checked lookup is idempotent: against an unchanged buffer length, two
/// lookups with the same selector resolve to the same optional window — the
/// result is a pure function of the selector and the length alone.
pub proof fn lemma_lookup_idempotent<T, I: SliceIndex<T>>(
    sel: &I,
    n: int,
    r1: Option<SubsliceView>,
    r2: Option<SubsliceView>,
)
    requires
        r1 == spec_lookup::<T, I>(sel, n),
        r2 == spec_lookup::<T, I>(sel, n),
    ensures
        r1 == r2,
{
}

/// Over a buffer of `n` slots, the selector `s..e` with `0 <= s <= e <= n` is
/// valid and resolves to the span `[s, e)` of length `e - s`.
pub proof fn lemma_range_resolves<T>(r: core::ops::Range<usize>, n: int)
    requires
        0 <= n,
        r.start <= r.end,
        r.end <= n,
    ensures
        <core::ops::Range<usize> as SliceIndex<T>>::spec_in_bounds(&r, n),
        <core::ops::Range<usize> as SliceIndex<T>>::spec_start(&r, n) == r.start,
        <core::ops::Range<usize> as SliceIndex<T>>::spec_len(&r, n) == r.end - r.start,
{
}

/// A single position `i` is a valid selector exactly when `i < n`, and the
/// checked lookup yields no view exactly when `i >= n`.
pub proof fn lemma_point_valid_iff<T>(i: usize, n: int)
    requires
        0 <= n,
    ensures
        <usize as SliceIndex<T>>::spec_in_bounds(&i, n) <==> (i as int) < n,
        spec_lookup::<T, usize>(&i, n) is None <==> (i as int) >= n,
{
}

/// The selector `s..` is valid — possibly resolving to an empty span —
/// exactly when `s <= n`, and the checked lookup yields no view exactly when
/// `s > n`. In particular `s == n` yields the empty window at the end of the
/// buffer rather than failing.
pub proof fn lemma_range_from_valid_iff<T>(r: core::ops::RangeFrom<usize>, n: int)
    requires
        0 <= n,
    ensures
        <core::ops::RangeFrom<usize> as SliceIndex<T>>::spec_in_bounds(&r, n) <==> (
        r.start as int) <= n,
        spec_lookup::<T, core::ops::RangeFrom<usize>>(&r, n) is None <==> (r.start as int) > n,
        (r.start as int) == n ==> spec_lookup::<T, core::ops::RangeFrom<usize>>(&r, n) == Some(
            (SubsliceView { start: r.start, len: 0 }),
        ),
{
}

/// The full-range selector is always valid, on an empty buffer too, and
/// resolves to the whole span `[0, n)`; for `n == 0` that is the zero-length
/// window.
pub proof fn lemma_range_full_always_valid<T>(n: int)
    requires
        0 <= n <= usize::MAX,
    ensures
        <core::ops::RangeFull as SliceIndex<T>>::spec_in_bounds(&(core::ops::RangeFull), n),
        spec_lookup::<T, core::ops::RangeFull>(&(core::ops::RangeFull), n) == Some(
            (SubsliceView { start: 0, len: n as usize }),
        ),
{
}

/// The selector `s..=e` is valid exactly when `s <= e` and `e < n`, resolving
/// to the inclusive span of length `e - s + 1`. An upper bound of `e == n` is
/// rejected: it addresses one slot past the last valid position.
pub proof fn lemma_range_inclusive_valid_iff<T>(r: core::ops::RangeInclusive<usize>, n: int)
    requires
        0 <= n,
    ensures
        <core::ops::RangeInclusive<usize> as SliceIndex<T>>::spec_in_bounds(&r, n) <==> (r@.start
            <= r@.end && (r@.end as int) < n),
        (r@.end as int) == n ==> !<core::ops::RangeInclusive<usize> as SliceIndex<T>>::spec_in_bounds(
            &r,
            n,
        ),
        <core::ops::RangeInclusive<usize> as SliceIndex<T>>::spec_in_bounds(&r, n)
            ==> <core::ops::RangeInclusive<usize> as SliceIndex<T>>::spec_len(&r, n) == r@.end
            - r@.start + 1,
{
}

} // verus!
