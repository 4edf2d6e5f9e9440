//! The window: a growable view of the part `[start, end)` of a backing value.

use vstd::prelude::*;
use crate::bounds::{fits, translate, Bound, Bounds};
use crate::drain::Drain;
use crate::sliceable::Sliceable;
use crate::sort::{sorted, sort_slice, sort_slice_unstable, stably_rearranged};
use vstd::laws_cmp::obeys_cmp;
use vstd::std_specs::iter::IteratorSpec;

verus! {

/// What a window is, mathematically: the contents of its backing value and
/// the absolute half-open bounds `[start, end)` of the part it shows.
pub struct WindowView<T> {
    pub backing: Seq<T>,
    pub start: int,
    pub end: int,
}

impl<T> WindowView<T> {
    /// `0 <= start <= end <= backing.len()`.
    pub open spec fn wf(self) -> bool {
        0 <= self.start <= self.end <= self.backing.len()
    }

    /// The elements that the window shows.
    pub open spec fn items(self) -> Seq<T> {
        self.backing.subrange(self.start, self.end)
    }

    pub open spec fn len(self) -> int {
        self.end - self.start
    }

    /// The window after `value` is inserted at `index` of it.
    pub open spec fn insert(self, index: int, value: T) -> WindowView<T> {
        WindowView {
            backing: self.backing.insert(self.start + index, value),
            start: self.start,
            end: self.end + 1,
        }
    }

    /// The window after the element at `index` of it is removed.
    pub open spec fn remove(self, index: int) -> WindowView<T> {
        WindowView {
            backing: self.backing.remove(self.start + index),
            start: self.start,
            end: self.end - 1,
        }
    }

    /// The window after the elements at `[lo, hi)` of it are removed.
    pub open spec fn drain(self, lo: int, hi: int) -> WindowView<T> {
        WindowView {
            backing: self.backing.subrange(0, self.start + lo) + self.backing.subrange(
                self.start + hi,
                self.backing.len() as int,
            ),
            start: self.start,
            end: self.end - (hi - lo),
        }
    }

    /// The window after its elements at `[lo, hi)` are replaced by `s`.
    pub open spec fn splice(self, lo: int, hi: int, s: Seq<T>) -> WindowView<T> {
        WindowView {
            backing: self.backing.subrange(0, self.start + lo) + s + self.backing.subrange(
                self.start + hi,
                self.backing.len() as int,
            ),
            start: self.start,
            end: self.end - (hi - lo) + s.len(),
        }
    }

    pub open spec fn push_back(self, value: T) -> WindowView<T> {
        self.insert(self.len(), value)
    }

    pub open spec fn push_front(self, value: T) -> WindowView<T> {
        self.insert(0, value)
    }
}

/// A growable window on the part `[start, end)` of a backing value `S`,
/// which it borrows exclusively for its whole lifetime.
///
/// Insertions and removals through the window are made on the backing value
/// and move `end` accordingly; `start` stays where it was put.  A window is
/// itself a backing value, so windows can be nested.
///
/// While a [`Drain`] of the window is under way, `pending` counts the
/// elements it has yet to remove; the window is usable again (well-formed)
/// only once that count is back to zero, i.e. once the drain is finished.
pub struct VecSlice<'a, T, S: Sliceable<T> = Vec<T>> {
    pub start: usize,
    pub end: usize,
    pub pending: usize,
    pub original: &'a mut S,
    pub marker: core::marker::PhantomData<T>,
}

impl<'a, T, S: Sliceable<T>> View for VecSlice<'a, T, S> {
    type V = WindowView<T>;

    open spec fn view(&self) -> WindowView<T> {
        WindowView { backing: self.original.contents(), start: self.start as int, end: self.end as int }
    }
}

impl<'a, T, S: Sliceable<T>> VecSlice<'a, T, S> {
    /// The window's bounds lie within a well-formed backing value, and no
    /// drain of it is left unfinished.
    pub open spec fn wf(&self) -> bool {
        &&& self.original.well_formed()
        &&& self@.wf()
        &&& self.pending == 0
    }

    /// Translates `range`, written relative to a window that spans
    /// `[start, end)`, to absolute half-open bounds.  No check is made that
    /// the result lies within anything.
    pub fn translate_range(range: Bounds, start: usize, end: usize) -> (r: (usize, usize))
        requires
            translate(range, start as int, end as int).0 <= usize::MAX,
            translate(range, start as int, end as int).1 <= usize::MAX,
        ensures
            r.0 == translate(range, start as int, end as int).0,
            r.1 == translate(range, start as int, end as int).1,
    {
        let lo = match range.start {
            Bound::Included(s) => start + s,
            Bound::Excluded(s) => start + s + 1,
            Bound::Unbounded => start,
        };
        let hi = match range.end {
            Bound::Included(e) => start + e + 1,
            Bound::Excluded(e) => start + e,
            Bound::Unbounded => end,
        };
        (lo, hi)
    }

    /// A window on the part of `original` that `range` selects.
    pub fn new(range: Bounds, original: &'a mut S) -> (r: VecSlice<'a, T, S>)
        requires
            old(original).well_formed(),
            fits(range, old(original).contents().len() as int),
        ensures
            r.wf(),
            *r.original == *old(original),
            r.start == translate(range, 0, old(original).contents().len() as int).0,
            r.end == translate(range, 0, old(original).contents().len() as int).1,
            r@.items() == old(original).contents().subrange(r.start as int, r.end as int),
            *final(r.original) == *final(original),
    {
        let len = original.len();
        let (start, end) = Self::translate_range(range, 0, len);
        VecSlice { start, end, pending: 0, original, marker: core::marker::PhantomData }
    }

    /// Returns the number of elements in the window.
    pub fn len(&self) -> (r: usize)
        requires
            self.wf(),
        ensures
            r == self@.len(),
    {
        self.end - self.start
    }

    /// Returns `true` if the window holds no element.
    pub fn is_empty(&self) -> (r: bool)
        requires
            self.wf(),
        ensures
            r == (self@.len() == 0),
    {
        self.len() == 0
    }

    /// Inserts `value` at position `index` of the window, shifting all
    /// elements after it, in the window and beyond, one slot on.
    pub fn insert(&mut self, index: usize, value: T)
        requires
            old(self).wf(),
            index <= old(self)@.len(),
        ensures
            final(self).wf(),
            final(self)@ == old(self)@.insert(index as int, value),
            final(self).offset() == old(self).offset(),
            final(self).root() == old(self).root().insert(old(self).offset() + index, value),
            *final(final(self).original) == *final(old(self).original),
    {
        self.original.insert(self.start + index, value);
        proof {
            self.original.lemma_len_fits();
        }
        self.end = self.end + 1;
    }

    /// Appends `value` at the back of the window.
    pub fn push_back(&mut self, value: T)
        requires
            old(self).wf(),
        ensures
            final(self).wf(),
            final(self)@ == old(self)@.push_back(value),
            final(self).offset() == old(self).offset(),
            final(self).root() == old(self).root().insert(old(self).offset() + old(self)@.len(), value),
            *final(final(self).original) == *final(old(self).original),
    {
        let len = self.len();
        self.insert(len, value);
    }

    /// Inserts `value` at the front of the window.
    pub fn push_front(&mut self, value: T)
        requires
            old(self).wf(),
        ensures
            final(self).wf(),
            final(self)@ == old(self)@.push_front(value),
            final(self).offset() == old(self).offset(),
            final(self).root() == old(self).root().insert(old(self).offset(), value),
            *final(final(self).original) == *final(old(self).original),
    {
        self.insert(0, value);
    }

    /// Removes and returns the element at position `index` of the window,
    /// shifting all elements after it one slot back.
    ///
    /// `index` must be less than `len()`: `index == len()`, which names no
    /// element, is rejected by the precondition rather than handed on to
    /// the backing value.
    pub fn remove(&mut self, index: usize) -> (r: T)
        requires
            old(self).wf(),
            index < old(self)@.len(),
        ensures
            final(self).wf(),
            r == old(self)@.items()[index as int],
            final(self)@ == old(self)@.remove(index as int),
            final(self).offset() == old(self).offset(),
            final(self).root() == old(self).root().remove(old(self).offset() + index),
            *final(final(self).original) == *final(old(self).original),
    {
        let r = self.original.remove(self.start + index);
        self.end = self.end - 1;
        r
    }

    /// Removes and returns the last element of the window, or `None` if it
    /// is empty.
    pub fn pop_back(&mut self) -> (r: Option<T>)
        requires
            old(self).wf(),
        ensures
            final(self).wf(),
            old(self)@.len() == 0 ==> r is None && final(self)@ == old(self)@,
            old(self)@.len() > 0 ==> r == Some(old(self)@.items().last())
                && final(self)@ == old(self)@.remove(old(self)@.len() - 1),
            final(self).offset() == old(self).offset(),
            old(self)@.len() == 0 ==> final(self).root() == old(self).root(),
            old(self)@.len() > 0 ==> final(self).root() == old(self).root().remove(
                old(self).offset() + old(self)@.len() - 1,
            ),
            *final(final(self).original) == *final(old(self).original),
    {
        if !self.is_empty() {
            let last = self.len() - 1;
            Some(self.remove(last))
        } else {
            None
        }
    }

    /// Removes and returns the first element of the window, or `None` if it
    /// is empty.
    pub fn pop_front(&mut self) -> (r: Option<T>)
        requires
            old(self).wf(),
        ensures
            final(self).wf(),
            old(self)@.len() == 0 ==> r is None && final(self)@ == old(self)@,
            old(self)@.len() > 0 ==> r == Some(old(self)@.items().first())
                && final(self)@ == old(self)@.remove(0),
            final(self).offset() == old(self).offset(),
            old(self)@.len() == 0 ==> final(self).root() == old(self).root(),
            old(self)@.len() > 0 ==> final(self).root() == old(self).root().remove(old(self).offset()),
            *final(final(self).original) == *final(old(self).original),
    {
        if !self.is_empty() {
            Some(self.remove(0))
        } else {
            None
        }
    }

    /// Starts removing the part of the window that `range` selects.
    ///
    /// The window's `end` drops by the number of selected elements at once,
    /// but nothing is removed yet: the returned [`Drain`] removes and yields
    /// one element per [`Drain::next`], and [`Drain::finish`] removes what is
    /// left.  The window stays borrowed, and is usable again only once the
    /// drain is finished; it then shows `old(self)@.drain(lo, hi)`
    /// ([`Drain::settled`]).
    pub fn drain<'b>(&'b mut self, range: Bounds) -> (r: Drain<'b, 'a, T, S>)
        requires
            old(self).wf(),
            fits(range, old(self)@.len()),
        ensures
            r.wf(),
            r.start == translate(range, 0, old(self)@.len()).0,
            r.elements == translate(range, 0, old(self)@.len()).1 - translate(
                range,
                0,
                old(self)@.len(),
            ).0,
            r.original@ == (WindowView {
                backing: old(self)@.backing,
                start: old(self)@.start,
                end: old(self)@.end - r.elements,
            }),
            r@ == old(self)@.items().subrange(
                translate(range, 0, old(self)@.len()).0,
                translate(range, 0, old(self)@.len()).1,
            ),
            r.settled() == old(self)@.drain(
                translate(range, 0, old(self)@.len()).0,
                translate(range, 0, old(self)@.len()).1,
            ),
            *final(r.original) == *final(self),
            *final(r.original.original) == *final(old(self).original),
    {
        Drain::new(self, range)
    }

    /// Removes every element of the window; the rest of the backing value
    /// stays.
    pub fn clear(&mut self)
        requires
            old(self).wf(),
        ensures
            final(self).wf(),
            final(self)@ == old(self)@.drain(0, old(self)@.len()),
            final(self)@.len() == 0,
            *final(final(self).original) == *final(old(self).original),
    {
        let d = self.drain(Bounds::full());
        d.finish();
    }

    /// Copies the window's elements into a new `Vec`.
    pub fn to_vec(&self) -> (r: Vec<T>)
        where
            T: Clone,
        requires
            self.wf(),
        ensures
            r@.len() == self@.len(),
            forall|i: int| 0 <= i < self@.len() ==> cloned(#[trigger] self@.items()[i], r@[i]),
    {
        let items = self.as_view();
        let mut r: Vec<T> = Vec::new();
        let mut i: usize = 0;
        while i < items.len()
            invariant
                items@ == self@.items(),
                i <= items@.len(),
                r@.len() == i,
                forall|j: int| 0 <= j < i ==> cloned(#[trigger] items@[j], r@[j]),
            decreases items@.len() - i,
        {
            r.push(items[i].clone());
            i = i + 1;
        }
        r
    }

    /// Consumes the window and copies its elements into a new `Vec`.
    pub fn into_vec(self) -> (r: Vec<T>)
        where
            T: Clone,
        requires
            self.wf(),
        ensures
            r@.len() == self@.len(),
            forall|i: int| 0 <= i < self@.len() ==> cloned(#[trigger] self@.items()[i], r@[i]),
            *final(self.original) == *old(self.original),
    {
        self.to_vec()
    }

    /// The part of the window that `range` selects.
    pub fn index(&self, range: Bounds) -> (r: &[T])
        requires
            self.wf(),
            fits(range, self@.len()),
        ensures
            r@ == self@.items().subrange(
                translate(range, 0, self@.len()).0,
                translate(range, 0, self@.len()).1,
            ),
    {
        let (lo, hi) = Self::translate_range(range, self.start, self.end);
        let all = self.original.as_view();
        let r = vstd::slice::slice_subrange(all, lo, hi);
        assert(r@ =~= self@.items().subrange(
            translate(range, 0, self@.len()).0,
            translate(range, 0, self@.len()).1,
        ));
        r
    }

    /// Write access to the part of the window that `range` selects.
    pub fn index_mut(&mut self, range: Bounds) -> (r: &mut [T])
        requires
            old(self).wf(),
            fits(range, old(self)@.len()),
        ensures
            r@ == old(self)@.items().subrange(
                translate(range, 0, old(self)@.len()).0,
                translate(range, 0, old(self)@.len()).1,
            ),
            final(r)@.len() == r@.len() ==> final(self).wf() && final(self)@ == old(self)@.splice(
                translate(range, 0, old(self)@.len()).0,
                translate(range, 0, old(self)@.len()).1,
                final(r)@,
            ),
            *final(final(self).original) == *final(old(self).original),
    {
        let ghost w0 = self@;
        let ghost (rlo, rhi) = translate(range, 0, self@.len());
        let (lo, hi) = Self::translate_range(range, self.start, self.end);
        let all = self.original.as_mut_view();
        let (left, rest) = all.split_at_mut(lo);
        let (mid, tail) = rest.split_at_mut(hi - lo);
        assert(mid@ =~= w0.items().subrange(rlo, rhi));
        assert(left@ + (final(mid)@ + tail@) =~= w0.splice(rlo, rhi, final(mid)@).backing);
        mid
    }

    /// Sorts the window's elements, keeping the order of equal ones; the
    /// rest of the backing value stays.
    pub fn sort(&mut self)
        where
            T: Ord,
        requires
            old(self).wf(),
            obeys_cmp::<T>(),
        ensures
            final(self).wf(),
            final(self)@.len() == old(self)@.len(),
            final(self)@ == old(self)@.splice(0, old(self)@.len(), final(self)@.items()),
            final(self)@.items().to_multiset() == old(self)@.items().to_multiset(),
            sorted(final(self)@.items()),
            stably_rearranged(old(self)@.items(), final(self)@.items()),
            *final(final(self).original) == *final(old(self).original),
    {
        let items = self.index_mut(Bounds::full());
        let ghost before = items@;
        assert(before =~= old(self)@.items());
        sort_slice(items);
        proof {
            before.to_multiset_ensures();
            items@.to_multiset_ensures();
        }
        assert(final(self)@.items() =~= items@);
    }

    /// Sorts the window's elements, possibly reordering equal ones; the rest
    /// of the backing value stays.
    pub fn sort_unstable(&mut self)
        where
            T: Ord,
        requires
            old(self).wf(),
            obeys_cmp::<T>(),
        ensures
            final(self).wf(),
            final(self)@.len() == old(self)@.len(),
            final(self)@ == old(self)@.splice(0, old(self)@.len(), final(self)@.items()),
            final(self)@.items().to_multiset() == old(self)@.items().to_multiset(),
            sorted(final(self)@.items()),
            *final(final(self).original) == *final(old(self).original),
    {
        let items = self.index_mut(Bounds::full());
        let ghost before = items@;
        assert(before =~= old(self)@.items());
        sort_slice_unstable(items);
        proof {
            before.to_multiset_ensures();
            items@.to_multiset_ensures();
        }
        assert(final(self)@.items() =~= items@);
    }

    /// An iterator over the window's elements, front to back.
    pub fn iter(&self) -> (r: core::slice::Iter<'_, T>)
        requires
            self.wf(),
        ensures
            r.remaining() == self@.items().map_values(|x: T| &x),
    {
        self.as_view().iter()
    }

    /// Appends every element of `items` at the back of the window, in order.
    pub fn extend(&mut self, items: Vec<T>)
        requires
            old(self).wf(),
        ensures
            final(self).wf(),
            final(self)@ == old(self)@.splice(old(self)@.len(), old(self)@.len(), items@),
            *final(final(self).original) == *final(old(self).original),
    {
        let ghost w0 = self@;
        let ghost all = items@;
        assert(w0.splice(w0.len(), w0.len(), all.subrange(0, 0)).backing =~= w0.backing);
        for x in it: items
            invariant
                w0.wf(),
                self.wf(),
                it.seq() == all,
                self@ == w0.splice(w0.len(), w0.len(), all.subrange(0, it.index() as int)),
                *final(self.original) == *final(old(self).original),
        {
            self.push_back(x);
            assert(self@.backing =~= w0.splice(
                w0.len(),
                w0.len(),
                all.subrange(0, it.index() + 1),
            ).backing);
        }
        assert(all.subrange(0, all.len() as int) =~= all);
    }

    /// Gives back the borrow of the backing value.
    pub fn into_original(self) -> (r: &'a mut S)
        ensures
            *r == *old(self.original),
            *final(r) == *final(self.original),
    {
        self.original
    }
}

impl<'a, T, S: Sliceable<T>> Sliceable<T> for VecSlice<'a, T, S> {
    open spec fn contents(&self) -> Seq<T> {
        self@.items()
    }

    open spec fn well_formed(&self) -> bool {
        self.wf()
    }

    open spec fn root(&self) -> Seq<T> {
        self.original.root()
    }

    open spec fn offset(&self) -> int {
        self.original.offset() + self.start
    }

    proof fn lemma_within_root(&self) {
        self.original.lemma_within_root();
        assert(self@.items() =~= self.root().subrange(
            self.offset(),
            self.offset() + self@.items().len(),
        ));
    }

    proof fn lemma_len_fits(&self) {
        self.original.lemma_len_fits();
    }

    fn len(&self) -> (r: usize) {
        VecSlice::len(self)
    }

    fn insert(&mut self, index: usize, value: T) {
        VecSlice::insert(self, index, value);
        assert(self@.items() =~= old(self)@.items().insert(index as int, value));
    }

    fn remove(&mut self, index: usize) -> (r: T) {
        let r = VecSlice::remove(self, index);
        assert(self@.items() =~= old(self)@.items().remove(index as int));
        r
    }

    fn as_view(&self) -> (r: &[T]) {
        let all = self.original.as_view();
        vstd::slice::slice_subrange(all, self.start, self.end)
    }

    fn as_mut_view(&mut self) -> (r: &mut [T]) {
        proof {
            self.original.lemma_within_root();
        }
        let ghost whole = self.original.root();
        let ghost base = self.original.offset();
        let ghost outer_len = self.original.contents().len();
        let start = self.start;
        let len = self.end - self.start;
        let all = self.original.as_mut_view();
        let (left, rest) = all.split_at_mut(start);
        let (mid, tail) = rest.split_at_mut(len);
        assert(whole.subrange(0, base) + (left@ + (final(mid)@ + tail@)) + whole.subrange(
            base + outer_len,
            whole.len() as int,
        ) =~= whole.subrange(0, base + start) + final(mid)@ + whole.subrange(
            base + start + len,
            whole.len() as int,
        ));
        mid
    }
}

} // verus!
