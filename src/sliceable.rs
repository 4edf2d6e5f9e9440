//! The operations that a backing value offers to a window built over it.

use vstd::prelude::*;
use crate::bounds::{fits, translate, Bounds};
use crate::window::VecSlice;

verus! {

/// A growable, indexable buffer: what a window needs of its backing value.
///
/// `Vec<T>` implements it, and so does every window, which lets windows nest.
pub trait Sliceable<T> {
    /// The elements, in order.
    spec fn contents(&self) -> Seq<T>;

    /// What the value needs for its operations to be meaningful.
    spec fn well_formed(&self) -> bool;

    /// The buffer at the bottom of any nesting: a `Vec` is its own root, a
    /// window has the root of the value it is built on.
    spec fn root(&self) -> Seq<T>;

    /// The absolute position in `root()` where `contents()` begins: the sum
    /// of the `start` bounds of every window on the way down.
    spec fn offset(&self) -> int;

    /// The contents are the part of the root that begins at `offset()`.
    proof fn lemma_within_root(&self)
        requires
            self.well_formed(),
        ensures
            0 <= self.offset(),
            self.offset() + self.contents().len() <= self.root().len(),
            self.contents() == self.root().subrange(
                self.offset(),
                self.offset() + self.contents().len(),
            ),
    ;

    /// A well-formed value holds no more elements than a `usize` counts.
    proof fn lemma_len_fits(&self)
        requires
            self.well_formed(),
        ensures
            self.contents().len() <= usize::MAX,
    ;

    /// Returns the number of elements.
    fn len(&self) -> (r: usize)
        requires
            self.well_formed(),
        ensures
            r == self.contents().len(),
    ;

    /// Inserts `value` at `index`, shifting every later element one slot on.
    fn insert(&mut self, index: usize, value: T)
        requires
            old(self).well_formed(),
            index <= old(self).contents().len(),
        ensures
            final(self).well_formed(),
            final(self).contents() == old(self).contents().insert(index as int, value),
            final(self).offset() == old(self).offset(),
            final(self).root() == old(self).root().insert(old(self).offset() + index, value),
    ;

    /// Removes and returns the element at `index`, shifting every later
    /// element one slot back.
    fn remove(&mut self, index: usize) -> (r: T)
        requires
            old(self).well_formed(),
            index < old(self).contents().len(),
        ensures
            final(self).well_formed(),
            r == old(self).contents()[index as int],
            final(self).contents() == old(self).contents().remove(index as int),
            final(self).offset() == old(self).offset(),
            final(self).root() == old(self).root().remove(old(self).offset() + index),
    ;

    /// Read access to all the elements at once.
    fn as_view(&self) -> (r: &[T])
        requires
            self.well_formed(),
        ensures
            r@ == self.contents(),
    ;

    /// Write access to all the elements at once.  What is written through
    /// the slice is what the value holds afterwards (a slice cannot change
    /// its length, which the premise records).
    fn as_mut_view(&mut self) -> (r: &mut [T])
        requires
            old(self).well_formed(),
        ensures
            r@ == old(self).contents(),
            final(r)@.len() == r@.len() ==> {
                &&& final(self).well_formed()
                &&& final(self).contents() == final(r)@
                &&& final(self).offset() == old(self).offset()
                &&& final(self).root() == old(self).root().subrange(0, old(self).offset())
                    + final(r)@ + old(self).root().subrange(
                    old(self).offset() + r@.len(),
                    old(self).root().len() as int,
                )
            },
    ;
}

/// Window constructors, available on every backing value.
pub trait Slice<T>: Sliceable<T> + Sized {
    /// A window on the part of `self` that `range` selects.
    fn vecslice(&mut self, range: Bounds) -> (r: VecSlice<'_, T, Self>)
        requires
            old(self).well_formed(),
            fits(range, old(self).contents().len() as int),
        ensures
            r.wf(),
            *r.original == *old(self),
            r.start == translate(range, 0, old(self).contents().len() as int).0,
            r.end == translate(range, 0, old(self).contents().len() as int).1,
            r@.items() == old(self).contents().subrange(r.start as int, r.end as int),
            *final(r.original) == *final(self),
    {
        VecSlice::new(range, self)
    }

    /// An empty window at the end of `self`: pushing at its back appends to
    /// `self` without moving any element.
    fn vecslice_at_tail(&mut self) -> (r: VecSlice<'_, T, Self>)
        requires
            old(self).well_formed(),
        ensures
            r.wf(),
            *r.original == *old(self),
            r.start == old(self).contents().len(),
            r.end == old(self).contents().len(),
            *final(r.original) == *final(self),
    {
        let len = self.len();
        self.vecslice(Bounds::range(len, len))
    }

    /// An empty window at the start of `self`: what is pushed into it comes
    /// before every element of `self`.
    fn vecslice_at_head(&mut self) -> (r: VecSlice<'_, T, Self>)
        requires
            old(self).well_formed(),
        ensures
            r.wf(),
            *r.original == *old(self),
            r.start == 0,
            r.end == 0,
            *final(r.original) == *final(self),
    {
        self.vecslice(Bounds::range(0, 0))
    }
}

impl<T, S: Sliceable<T>> Slice<T> for S {
}

impl<T> Sliceable<T> for Vec<T> {
    open spec fn contents(&self) -> Seq<T> {
        self@
    }

    open spec fn well_formed(&self) -> bool {
        true
    }

    open spec fn root(&self) -> Seq<T> {
        self@
    }

    open spec fn offset(&self) -> int {
        0
    }

    proof fn lemma_within_root(&self) {
        assert(self@ =~= self@.subrange(0, self@.len() as int));
    }

    proof fn lemma_len_fits(&self) {
        assert(self.len() == self@.len());
    }

    fn len(&self) -> (r: usize) {
        Vec::len(self)
    }

    fn insert(&mut self, index: usize, value: T) {
        Vec::insert(self, index, value)
    }

    fn remove(&mut self, index: usize) -> (r: T) {
        Vec::remove(self, index)
    }

    fn as_view(&self) -> (r: &[T]) {
        self.as_slice()
    }

    fn as_mut_view(&mut self) -> (r: &mut [T]) {
        let ghost before = self@;
        let r = self.as_mut_slice();
        assert(final(r)@.len() == r@.len() ==> final(r)@ =~= before.subrange(0, 0) + final(r)@
            + before.subrange(r@.len() as int, before.len() as int));
        r
    }
}

} // verus!
