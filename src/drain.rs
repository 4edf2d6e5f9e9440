//! Bulk removal of a part of a window, one element at a time.

use vstd::prelude::*;
use crate::bounds::{fits, translate, Bounds};
use crate::sliceable::Sliceable;
use crate::window::{VecSlice, WindowView};

verus! {

/// A removal of the part `[start, start + elements)` of a window, under way.
///
/// [`VecSlice::drain`] has already lowered the window's `end`; the elements
/// themselves stay in the backing value until [`Drain::next`] removes and
/// yields them, first to last.  [`Drain::finish`] removes whatever is left
/// and hands the window back in its drained state.  The drain holds the only
/// access to its window while it lives, and the window's `pending` count
/// keeps it unusable until the drain is finished.
pub struct Drain<'b, 's, T, S: Sliceable<T>> {
    pub original: &'b mut VecSlice<'s, T, S>,
    /// Where the elements still to remove begin, relative to the window.
    pub start: usize,
    /// How many elements are still to remove.
    pub elements: usize,
}

impl<'b, 's, T, S: Sliceable<T>> View for Drain<'b, 's, T, S> {
    type V = Seq<T>;

    /// The elements still to remove, in the order they will come.
    open spec fn view(&self) -> Seq<T> {
        self.original@.backing.subrange(
            self.original.start + self.start,
            self.original.start + self.start + self.elements,
        )
    }
}

impl<'b, 's, T, S: Sliceable<T>> Drain<'b, 's, T, S> {
    /// The elements still to remove lie in the backing value right after the
    /// first `start` elements of the window, and the window's `pending`
    /// count is their number.
    pub open spec fn wf(&self) -> bool {
        &&& self.original.original.well_formed()
        &&& self.original@.wf()
        &&& self.original.pending == self.elements
        &&& self.original.start + self.start <= self.original.end
        &&& self.original.end + self.elements <= self.original@.backing.len()
    }

    /// The window as it will be once the drain is finished: the elements
    /// still to remove are gone, and its bounds are as they are now.
    pub open spec fn settled(&self) -> WindowView<T> {
        let w = self.original@;
        WindowView {
            backing: w.backing.subrange(0, w.start + self.start) + w.backing.subrange(
                w.start + self.start + self.elements,
                w.backing.len() as int,
            ),
            start: w.start,
            end: w.end,
        }
    }

    /// Starts the removal of the part of `original` that `range` selects,
    /// relative to the window: lowers the window's `end` by its length and
    /// removes nothing yet.
    pub(crate) fn new(original: &'b mut VecSlice<'s, T, S>, range: Bounds) -> (r: Self)
        requires
            old(original).wf(),
            fits(range, old(original)@.len()),
        ensures
            r.wf(),
            r.start == translate(range, 0, old(original)@.len()).0,
            r.elements == translate(range, 0, old(original)@.len()).1 - translate(
                range,
                0,
                old(original)@.len(),
            ).0,
            r.original@ == (WindowView {
                backing: old(original)@.backing,
                start: old(original)@.start,
                end: old(original)@.end - r.elements,
            }),
            r@ == old(original)@.items().subrange(
                translate(range, 0, old(original)@.len()).0,
                translate(range, 0, old(original)@.len()).1,
            ),
            r.settled() == old(original)@.drain(
                translate(range, 0, old(original)@.len()).0,
                translate(range, 0, old(original)@.len()).1,
            ),
            *final(r.original) == *final(original),
            *final(r.original.original) == *final(old(original).original),
    {
        let len = original.len();
        let (lo, hi) = VecSlice::<T, S>::translate_range(range, 0, len);
        original.end = original.end - (hi - lo);
        original.pending = hi - lo;
        let r = Drain { original, start: lo, elements: hi - lo };
        assert(r@ =~= old(original)@.items().subrange(lo as int, hi as int));
        r
    }

    /// Removes from the backing value, and returns, the next element of the
    /// drained part, or returns `None` once none is left.
    pub fn next(&mut self) -> (r: Option<T>)
        requires
            old(self).wf(),
        ensures
            final(self).wf(),
            final(self).start == old(self).start,
            final(self).original.start == old(self).original.start,
            final(self).original.end == old(self).original.end,
            final(self).settled() == old(self).settled(),
            old(self).elements == 0 ==> r is None && final(self).elements == 0
                && final(self).original@ == old(self).original@,
            old(self).elements > 0 ==> {
                &&& r == Some(old(self)@[0])
                &&& final(self).elements == old(self).elements - 1
                &&& final(self)@ == old(self)@.drop_first()
                &&& final(self).original@.backing == old(self).original@.backing.remove(
                    old(self).original.start + old(self).start,
                )
            },
            *final(final(self).original) == *final(old(self).original),
            *final(final(self).original.original) == *final(old(self).original.original),
    {
        if self.elements > 0 {
            let at = self.original.start + self.start;
            let x = self.original.original.remove(at);
            self.elements = self.elements - 1;
            self.original.pending = self.original.pending - 1;
            proof {
                assert(self@ =~= old(self)@.drop_first());
                assert(self.settled().backing =~= old(self).settled().backing);
            }
            Some(x)
        } else {
            None
        }
    }

    /// Returns the number of elements still to remove.
    pub fn len(&self) -> (r: usize)
        ensures
            r == self.elements,
    {
        self.elements
    }

    /// Removes every element still to remove and gives the window back,
    /// well-formed again, as [`Drain::settled`] describes it.
    pub fn finish(self)
        requires
            self.wf(),
        ensures
            final(self.original).wf(),
            final(self.original)@ == self.settled(),
            *final(final(self.original).original) == *final(old(self.original).original),
        decreases self.elements,
    {
        if self.elements > 0 {
            let mut rest = self;
            rest.next();
            rest.finish();
        } else {
            assert(self.settled().backing =~= self.original@.backing);
        }
    }
}

} // verus!
