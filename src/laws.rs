//! General properties of windows, stated over their mathematical model.

use vstd::prelude::*;
use crate::window::WindowView;

verus! {

/// One structural change made through a window, in the window's own indices.
pub enum Edit<T> {
    Insert(int, T),
    Remove(int),
    Drain(int, int),
}

/// `e` is allowed on `w`: its indices lie within the window.
pub open spec fn edit_ok<T>(w: WindowView<T>, e: Edit<T>) -> bool {
    match e {
        Edit::Insert(i, _) => 0 <= i <= w.len(),
        Edit::Remove(i) => 0 <= i < w.len(),
        Edit::Drain(lo, hi) => 0 <= lo <= hi <= w.len(),
    }
}

/// The window after `e`.
pub open spec fn apply<T>(w: WindowView<T>, e: Edit<T>) -> WindowView<T> {
    match e {
        Edit::Insert(i, x) => w.insert(i, x),
        Edit::Remove(i) => w.remove(i),
        Edit::Drain(lo, hi) => w.drain(lo, hi),
    }
}

/// How many elements `e` adds (negative: removes).
pub open spec fn net<T>(e: Edit<T>) -> int {
    match e {
        Edit::Insert(_, _) => 1,
        Edit::Remove(_) => -1,
        Edit::Drain(lo, hi) => lo - hi,
    }
}

/// Every edit of `edits` is allowed on the window it meets.
pub open spec fn all_ok<T>(w: WindowView<T>, edits: Seq<Edit<T>>) -> bool
    decreases edits.len(),
{
    edits.len() > 0 ==> edit_ok(w, edits[0]) && all_ok(apply(w, edits[0]), edits.drop_first())
}

/// The window after all of `edits`, first to last.
pub open spec fn apply_all<T>(w: WindowView<T>, edits: Seq<Edit<T>>) -> WindowView<T>
    decreases edits.len(),
{
    if edits.len() == 0 {
        w
    } else {
        apply_all(apply(w, edits[0]), edits.drop_first())
    }
}

/// The number of elements that `edits` add, less those they remove.
pub open spec fn net_all<T>(edits: Seq<Edit<T>>) -> int
    decreases edits.len(),
{
    if edits.len() == 0 {
        0
    } else {
        net(edits[0]) + net_all(edits.drop_first())
    }
}

/// The window after pushing each of `xs` at its back, in order.
pub open spec fn push_all<T>(w: WindowView<T>, xs: Seq<T>) -> WindowView<T>
    decreases xs.len(),
{
    if xs.len() == 0 {
        w
    } else {
        push_all(w.push_back(xs[0]), xs.drop_first())
    }
}

/// Any sequence of allowed insertions, removals and drains through one
/// window keeps `start <= end <= backing.len()`, leaves `start` where it
/// was, and changes the length by exactly the number of elements added less
/// those removed.
pub proof fn lemma_edits_keep_bounds<T>(w: WindowView<T>, edits: Seq<Edit<T>>)
    requires
        w.wf(),
        all_ok(w, edits),
    ensures
        apply_all(w, edits).wf(),
        apply_all(w, edits).start == w.start,
        apply_all(w, edits).len() == w.len() + net_all(edits),
    decreases edits.len(),
{
    if edits.len() > 0 {
        let next = apply(w, edits[0]);
        assert(next.wf() && next.start == w.start && next.len() == w.len() + net(edits[0]));
        lemma_edits_keep_bounds(next, edits.drop_first());
    }
}

/// Pushing `x` at the back and then popping the back gives `x` back and
/// restores the window and its backing value exactly.
pub proof fn lemma_push_back_pop_back<T>(w: WindowView<T>, x: T)
    requires
        w.wf(),
    ensures
        w.push_back(x).wf(),
        w.push_back(x).len() == w.len() + 1,
        w.push_back(x).items().last() == x,
        w.push_back(x).remove(w.push_back(x).len() - 1) == w,
{
    let p = w.push_back(x);
    assert(p.items() =~= w.items().push(x));
    assert(p.remove(p.len() - 1).backing =~= w.backing);
}

/// Pushing at the back of a window that sits at the end of its backing
/// value appends to the backing value: every element that was there keeps
/// its position, and the window holds exactly what was pushed after the
/// elements it held.
pub proof fn lemma_tail_pushes_append<T>(w: WindowView<T>, xs: Seq<T>)
    requires
        w.wf(),
        w.end == w.backing.len(),
    ensures
        push_all(w, xs).backing == w.backing + xs,
        push_all(w, xs).start == w.start,
        push_all(w, xs).end == push_all(w, xs).backing.len(),
        push_all(w, xs).items() == w.items() + xs,
    decreases xs.len(),
{
    if xs.len() == 0 {
        assert(w.backing + xs =~= w.backing);
        assert(w.items() + xs =~= w.items());
    } else {
        let p = w.push_back(xs[0]);
        assert(p.backing =~= w.backing.push(xs[0]));
        lemma_tail_pushes_append(p, xs.drop_first());
        assert(p.backing + xs.drop_first() =~= w.backing + xs);
        assert(p.items() + xs.drop_first() =~= w.items() + xs);
    }
}

/// Draining `[lo, hi)` removes exactly `hi - lo` elements, from the window
/// and from the backing value alike, and keeps the rest in order.
pub proof fn lemma_drain_removes_span<T>(w: WindowView<T>, lo: int, hi: int)
    requires
        w.wf(),
        0 <= lo <= hi <= w.len(),
    ensures
        w.drain(lo, hi).wf(),
        w.drain(lo, hi).len() == w.len() - (hi - lo),
        w.drain(lo, hi).backing.len() == w.backing.len() - (hi - lo),
        w.drain(lo, hi).items() == w.items().subrange(0, lo) + w.items().subrange(hi, w.len()),
{
    let d = w.drain(lo, hi);
    assert(d.items() =~= w.items().subrange(0, lo) + w.items().subrange(hi, w.len()));
}

/// A window on `[lo, hi)` of a window on `[start, end)` of a backing value
/// shows what a window on `[start + lo, start + hi)` of that value shows.
pub proof fn lemma_nested_window<T>(outer: WindowView<T>, lo: int, hi: int)
    requires
        outer.wf(),
        0 <= lo <= hi <= outer.len(),
    ensures
        (WindowView { backing: outer.items(), start: lo, end: hi }).items() == (WindowView {
            backing: outer.backing,
            start: outer.start + lo,
            end: outer.start + hi,
        }).items(),
{
    assert((WindowView { backing: outer.items(), start: lo, end: hi }).items() =~= (WindowView {
        backing: outer.backing,
        start: outer.start + lo,
        end: outer.start + hi,
    }).items());
}

} // verus!
