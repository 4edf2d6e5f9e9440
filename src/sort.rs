//! Sorting a slice in place, by the standard library.

use vstd::prelude::*;
use vstd::laws_cmp::obeys_cmp;
use vstd::std_specs::cmp::OrdSpec;

verus! {

/// `s` is in non-decreasing order by `Ord::cmp`.
pub open spec fn sorted<T: Ord>(s: Seq<T>) -> bool {
    forall|i: int, j: int|
        #![trigger s[i], s[j]]
        0 <= i < j < s.len() ==> s[i].cmp_spec(&s[j]) != core::cmp::Ordering::Greater
}

/// `p` sends each position of `after` to the position of `before` its
/// element came from: a one-to-one map onto `[0, before.len())` under which
/// elements that compare equal keep their relative order.
pub open spec fn stable_arrangement<T: Ord>(before: Seq<T>, after: Seq<T>, p: Seq<int>) -> bool {
    &&& after.len() == before.len()
    &&& p.len() == before.len()
    &&& forall|i: int| 0 <= i < p.len() ==> 0 <= #[trigger] p[i] < before.len()
    &&& forall|i: int, j: int|
        #![trigger p[i], p[j]]
        0 <= i < j < p.len() ==> p[i] != p[j]
    &&& forall|i: int| 0 <= i < after.len() ==> #[trigger] after[i] == before[p[i]]
    &&& forall|i: int, j: int|
        #![trigger after[i], after[j]]
        0 <= i < j < after.len() && after[i].cmp_spec(&after[j]) == core::cmp::Ordering::Equal
            ==> p[i] < p[j]
}

/// `after` is `before` rearranged so that elements comparing equal keep
/// their relative order.
pub open spec fn stably_rearranged<T: Ord>(before: Seq<T>, after: Seq<T>) -> bool {
    exists|p: Seq<int>| #[trigger] stable_arrangement(before, after, p)
}

/// Relies on `<[T]>::sort`: for a total order it rearranges the elements
/// into non-decreasing order, keeping equal elements in their order.
#[verifier::external_body]
pub(crate) fn sort_slice<T: Ord>(s: &mut [T])
    requires
        obeys_cmp::<T>(),
    ensures
        final(s)@.to_multiset() == old(s)@.to_multiset(),
        sorted(final(s)@),
        stably_rearranged(old(s)@, final(s)@),
{
    s.sort()
}

/// Relies on `<[T]>::sort_unstable`: for a total order it rearranges the
/// elements into non-decreasing order.
#[verifier::external_body]
pub(crate) fn sort_slice_unstable<T: Ord>(s: &mut [T])
    requires
        obeys_cmp::<T>(),
    ensures
        final(s)@.to_multiset() == old(s)@.to_multiset(),
        sorted(final(s)@),
{
    s.sort_unstable()
}

} // verus!
