//! Range expressions and their translation to absolute, half-open bounds.

use vstd::prelude::*;

verus! {

/// One end of a range expression.
#[derive(Clone, Copy, Debug, PartialEq, Eq, Structural)]
pub enum Bound {
    Included(usize),
    Excluded(usize),
    Unbounded,
}

/// A range expression: a start and an end, each included, excluded or
/// absent, written relative to the origin of a window.
#[derive(Clone, Copy, Debug, PartialEq, Eq, Structural)]
pub struct Bounds {
    pub start: Bound,
    pub end: Bound,
}

/// The absolute lower bound that `b`, the start of a range, stands for.
pub open spec fn lower(b: Bound, origin_start: int) -> int {
    match b {
        Bound::Included(s) => origin_start + s,
        Bound::Excluded(s) => origin_start + s + 1,
        Bound::Unbounded => origin_start,
    }
}

/// The absolute upper bound (exclusive) that `b`, the end of a range, stands for.
pub open spec fn upper(b: Bound, origin_start: int, origin_end: int) -> int {
    match b {
        Bound::Included(e) => origin_start + e + 1,
        Bound::Excluded(e) => origin_start + e,
        Bound::Unbounded => origin_end,
    }
}

/// The absolute half-open pair `(lo, hi)` that `range` denotes in a window
/// that spans `[origin_start, origin_end)`.
pub open spec fn translate(range: Bounds, origin_start: int, origin_end: int) -> (int, int) {
    (lower(range.start, origin_start), upper(range.end, origin_start, origin_end))
}

/// Whether `range`, read in a window of length `len`, selects a part of it:
/// `0 <= lo <= hi <= len`.
pub open spec fn fits(range: Bounds, len: int) -> bool {
    let (lo, hi) = translate(range, 0, len);
    lo <= hi <= len
}

impl Bounds {
    /// `..`
    pub fn full() -> (r: Bounds)
        ensures
            r == (Bounds { start: Bound::Unbounded, end: Bound::Unbounded }),
    {
        Bounds { start: Bound::Unbounded, end: Bound::Unbounded }
    }

    /// `start..end`
    pub fn range(start: usize, end: usize) -> (r: Bounds)
        ensures
            r == (Bounds { start: Bound::Included(start), end: Bound::Excluded(end) }),
    {
        Bounds { start: Bound::Included(start), end: Bound::Excluded(end) }
    }

    /// `start..=end`
    pub fn inclusive(start: usize, end: usize) -> (r: Bounds)
        ensures
            r == (Bounds { start: Bound::Included(start), end: Bound::Included(end) }),
    {
        Bounds { start: Bound::Included(start), end: Bound::Included(end) }
    }

    /// `start..`
    pub fn starting_at(start: usize) -> (r: Bounds)
        ensures
            r == (Bounds { start: Bound::Included(start), end: Bound::Unbounded }),
    {
        Bounds { start: Bound::Included(start), end: Bound::Unbounded }
    }

    /// `..end`
    pub fn up_to(end: usize) -> (r: Bounds)
        ensures
            r == (Bounds { start: Bound::Unbounded, end: Bound::Excluded(end) }),
    {
        Bounds { start: Bound::Unbounded, end: Bound::Excluded(end) }
    }

    /// `..=end`
    pub fn up_to_inclusive(end: usize) -> (r: Bounds)
        ensures
            r == (Bounds { start: Bound::Unbounded, end: Bound::Included(end) }),
    {
        Bounds { start: Bound::Unbounded, end: Bound::Included(end) }
    }
}

} // verus!
