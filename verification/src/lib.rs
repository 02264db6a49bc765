//! A verified primitive for carving a buffer into independently addressed
//! mutable windows.
//!
//! An [`UnsafeCellSlice`] wraps a fixed-length buffer of slots. From it a
//! caller can mint any number of [`SubsliceView`] values: lightweight
//! descriptors of a window (offset and length) into the buffer. Every element
//! access goes back through the handle together with a view, so the verifier
//! tracks the exact contents of the buffer, which slots are initialized, and
//! that a write through one view never touches the slots of a disjoint view.
//!
//! Windows are requested through the selector shapes of
//! [`slice_index::SliceIndex`]: a single position, a half-open range, a
//! range-from, the full range, an inclusive range, a range-to, and an
//! inclusive range-to. Each shape carries its own boundary rule; a checked
//! lookup returns `None` on a violation, while the asserting lookup demands
//! in-bounds arguments up front.
//!
//! Nothing stops a caller from minting overlapping views — the handle does
//! not track which windows have been handed out. Because every access is
//! mediated by the handle, such writes are still well-defined (at a shared
//! slot the later write wins), but only genuinely disjoint views enjoy the
//! independence law [`lemma_disjoint_writes_commute`]; code that wants its
//! writes to compose must keep its live views disjoint.

use vstd::prelude::*;

use crate::slice_index::SliceIndex;

pub mod slice_index;
mod private_slice_index;
mod range_specs;

verus! {

/// A mutable window (offset and length) into the buffer of an
/// [`UnsafeCellSlice`]. The view itself is a plain descriptor: it grants
/// nothing by itself, and reads and writes through it are mediated by the
/// handle it was minted from.
#[derive(Clone, Copy, Debug, PartialEq, Eq, Structural)]
pub struct SubsliceView {
    /// Index of the first slot covered by the view.
    pub start: usize,
    /// Number of slots covered by the view.
    pub len: usize,
}

impl SubsliceView {
    /// One past the last slot covered by this view.
    pub open spec fn spec_end(self) -> int {
        self.start + self.len
    }

    /// The view lies entirely within a buffer of `n` slots.
    pub open spec fn fits(self, n: int) -> bool {
        self.start + self.len <= n
    }

    /// The two views cover no slot in common.
    pub open spec fn disjoint_from(self, other: SubsliceView) -> bool {
        self.spec_end() <= other.start || other.spec_end() <= self.start
    }
}

/// A handle over a fixed-length buffer of slots of `T`.
///
/// The buffer length is fixed at construction and never changes. Each slot is
/// either initialized (holding a value) or uninitialized; a slot may only be
/// read once it has been written. The handle's mathematical view is the
/// sequence of slots, an uninitialized slot appearing as `None`.
pub struct UnsafeCellSlice<T> {
    cells: Vec<Option<T>>,
}

impl<T> View for UnsafeCellSlice<T> {
    type V = Seq<Option<T>>;

    closed spec fn view(&self) -> Seq<Option<T>> {
        self.cells@
    }
}

/// Relies on `Vec::capacity`: the total number of elements the vector can
/// hold without reallocating, which is never less than its length. Which
/// exact number the allocator granted is not predictable, so no more is
/// assumed of it.
#[verifier::external_body]
fn vec_capacity<T>(v: &Vec<T>) -> (c: usize)
    ensures
        c >= v@.len(),
{
    v.capacity()
}

impl<T> UnsafeCellSlice<T> {
    /// Every slot of the buffer holds a value.
    pub open spec fn all_init(&self) -> bool {
        forall|i: int| 0 <= i < self@.len() ==> self@[i] is Some
    }

    /// Create a handle over a buffer initialized with the given values,
    /// in order.
    pub fn new(values: Vec<T>) -> (s: Self)
        ensures
            s@.len() == values@.len(),
            forall|i: int| 0 <= i < values@.len() ==> s@[i] == Some(values@[i]),
    {
        let ghost vals: Seq<T> = values@;
        let mut values = values;
        let mut cells: Vec<Option<T>> = Vec::new();
        while values.len() > 0
            invariant
                cells@.len() + values@.len() == vals.len(),
                forall|i: int| 0 <= i < cells@.len() ==> cells@[i] == Some(vals[i]),
                values@ == vals.subrange(cells@.len() as int, vals.len() as int),
            decreases values@.len(),
        {
            let v = values.remove(0);
            cells.push(Some(v));
        }
        UnsafeCellSlice { cells }
    }

    /// Create a handle over a buffer of `len` slots, all uninitialized.
    ///
    /// This supports filling a region slot by slot (possibly through several
    /// disjoint views) before its contents are claimed with
    /// [`into_vec`](Self::into_vec). A slot must be written before it can be
    /// read.
    pub fn new_uninit(len: usize) -> (s: Self)
        ensures
            s@.len() == len,
            forall|i: int| 0 <= i < len ==> s@[i] is None,
    {
        let mut cells: Vec<Option<T>> = Vec::new();
        let mut i: usize = 0;
        while i < len
            invariant
                i <= len,
                cells@.len() == i,
                forall|j: int| 0 <= j < i ==> cells@[j] is None,
            decreases len - i,
        {
            cells.push(None);
            i = i + 1;
        }
        UnsafeCellSlice { cells }
    }

    /// Create a handle over a fresh buffer with one uninitialized slot for
    /// each element of `vec`'s spare capacity (its capacity minus its
    /// length), to be filled through views — possibly a disjoint view per
    /// region — and then claimed with [`into_vec`](Self::into_vec), e.g. to
    /// append to the vector.
    ///
    /// How much spare capacity the allocator granted is not predictable, so
    /// nothing is promised of the resulting length; [`new_uninit`](Self::new_uninit)
    /// is the companion that takes the desired slot count directly.
    pub fn new_from_vec_with_spare_capacity(vec: &Vec<T>) -> (s: Self)
        ensures
            forall|i: int| 0 <= i < s@.len() ==> s@[i] is None,
    {
        let spare = vec_capacity(vec) - vec.len();
        Self::new_uninit(spare)
    }

    /// Return the length of the underlying buffer.
    pub fn len(&self) -> (n: usize)
        ensures
            n == self@.len(),
    {
        self.cells.len()
    }

    /// Return whether the underlying buffer is empty.
    pub fn is_empty(&self) -> (b: bool)
        ensures
            b == (self@.len() == 0),
    {
        self.cells.is_empty()
    }

    /// Checked lookup: resolve `index` against this handle and return a view
    /// of the resolved span, or `None` if the selector violates its boundary
    /// rule.
    pub fn get_mut<I: SliceIndex<T>>(&self, index: I) -> (r: Option<SubsliceView>)
        ensures
            r == slice_index::spec_lookup::<T, I>(&index, self@.len() as int),
    {
        index.get_mut(self)
    }

    /// Asserting lookup: resolve `index` against this handle and return a
    /// view of the resolved span. Out-of-bounds selectors are ruled out up
    /// front.
    pub fn index_mut<I: SliceIndex<T>>(&self, index: I) -> (v: SubsliceView)
        requires
            index.spec_in_bounds(self@.len() as int),
        ensures
            v == slice_index::resolved_view::<T, I>(&index, self@.len() as int),
    {
        index.index_mut(self)
    }

    /// Read the slot at position `i` of the window `view`. The slot must have
    /// been initialized.
    pub fn read(&self, view: &SubsliceView, i: usize) -> (r: &T)
        requires
            view.fits(self@.len() as int),
            i < view.len,
            self@[view.start + i] is Some,
        ensures
            Some(*r) == self@[view.start + i],
    {
        // Binding the length bounds `view.start + i` by `usize::MAX`.
        let _n = self.cells.len();
        let idx = view.start + i;
        self.cells[idx].as_ref().unwrap()
    }

    /// Write `value` into the slot at position `i` of the window `view`.
    /// Exactly that slot changes; in particular every slot of a view disjoint
    /// from `view` is untouched.
    pub fn write(&mut self, view: &SubsliceView, i: usize, value: T)
        requires
            view.fits(old(self)@.len() as int),
            i < view.len,
        ensures
            final(self)@ == old(self)@.update(view.start + i, Some(value)),
    {
        // Binding the length bounds `view.start + i` by `usize::MAX`.
        let _n = self.cells.len();
        let idx = view.start + i;
        self.cells[idx] = Some(value);
    }

    /// Dissolve the handle and hand the buffer contents back as a vector.
    /// Every slot must have been initialized.
    pub fn into_vec(self) -> (out: Vec<T>)
        requires
            self.all_init(),
        ensures
            out@.len() == self@.len(),
            forall|i: int| 0 <= i < self@.len() ==> Some(out@[i]) == self@[i],
    {
        let ghost orig: Seq<Option<T>> = self@;
        let mut cells = self.cells;
        let mut out: Vec<T> = Vec::new();
        while cells.len() > 0
            invariant
                out@.len() + cells@.len() == orig.len(),
                forall|i: int| 0 <= i < out@.len() ==> Some(out@[i]) == orig[i],
                cells@ == orig.subrange(out@.len() as int, orig.len() as int),
                forall|i: int| 0 <= i < orig.len() ==> orig[i] is Some,
            decreases cells@.len(),
        {
            let c = cells.remove(0);
            out.push(c.unwrap());
        }
        out
    }
}

impl<T: Copy> UnsafeCellSlice<T> {
    /// Copy out the contents of the window `view`, whose slots must all have
    /// been initialized.
    pub fn copy_view(&self, view: &SubsliceView) -> (out: Vec<T>)
        requires
            view.fits(self@.len() as int),
            forall|k: int| view.start <= k < view.spec_end() ==> self@[k] is Some,
        ensures
            out@.len() == view.len,
            forall|k: int| 0 <= k < view.len ==> Some(out@[k]) == self@[view.start + k],
    {
        let mut out: Vec<T> = Vec::new();
        let mut i: usize = 0;
        while i < view.len
            invariant
                i <= view.len,
                out@.len() == i,
                view.fits(self@.len() as int),
                forall|k: int| view.start <= k < view.spec_end() ==> self@[k] is Some,
                forall|k: int| 0 <= k < i ==> Some(out@[k]) == self@[view.start + k],
            decreases view.len - i,
        {
            out.push(*self.read(view, i));
            i = i + 1;
        }
        out
    }
}

/// Writing through a view puts the value at the addressed slot, leaves every
/// other slot of the buffer unchanged, and reading the slot back yields
/// exactly the value written.
pub proof fn lemma_write_then_read<T>(buf: Seq<Option<T>>, view: SubsliceView, i: int, value: T)
    requires
        view.fits(buf.len() as int),
        0 <= i < view.len,
    ensures
        buf.update(view.start + i, Some(value))[view.start + i] == Some(value),
        forall|k: int|
            0 <= k < buf.len() && k != view.start + i ==> buf.update(
                view.start + i,
                Some(value),
            )[k] == buf[k],
{
}

/// Writes through two disjoint views are independent: performed in either
/// order they leave the buffer holding the union of the writes — each
/// addressed slot holds the value written through its view, and every other
/// slot keeps its old contents.
pub proof fn lemma_disjoint_writes_commute<T>(
    buf: Seq<Option<T>>,
    a: SubsliceView,
    b: SubsliceView,
    i: int,
    j: int,
    x: T,
    y: T,
)
    requires
        a.fits(buf.len() as int),
        b.fits(buf.len() as int),
        a.disjoint_from(b),
        0 <= i < a.len,
        0 <= j < b.len,
    ensures
        ({
            let ab = buf.update(a.start + i, Some(x)).update(b.start + j, Some(y));
            let ba = buf.update(b.start + j, Some(y)).update(a.start + i, Some(x));
            &&& ab == ba
            &&& ab[a.start + i] == Some(x)
            &&& ab[b.start + j] == Some(y)
            &&& forall|k: int|
                0 <= k < buf.len() && k != a.start + i && k != b.start + j ==> ab[k] == buf[k]
        }),
{
    let ai = a.start + i;
    let bj = b.start + j;
    assert(ai != bj);
    assert(buf.update(ai, Some(x)).update(bj, Some(y)) =~= buf.update(bj, Some(y)).update(
        ai,
        Some(x),
    ));
}

} // verus!
