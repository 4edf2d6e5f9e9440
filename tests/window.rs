use vecslice::{Bound, Bounds, Slice, VecSlice};

#[test]
fn scenario_drain_middle_of_suffix_window() {
    let mut v = vec![0, 1, 2, 3, 4, 5];
    let mut w = v.vecslice(Bounds::starting_at(2));
    assert_eq!(w.to_vec(), vec![2, 3, 4, 5]);
    let mut d = w.drain(Bounds::inclusive(1, 2));
    let mut out = Vec::new();
    while let Some(x) = d.next() {
        out.push(x);
    }
    assert_eq!(out, vec![3, 4]);
    d.finish();
    assert_eq!(w.to_vec(), vec![2, 5]);
    assert_eq!(v, vec![0, 1, 2, 5]);
}

#[test]
fn scenario_tail_window_on_empty_backing() {
    let mut v: Vec<i32> = Vec::new();
    let mut w = v.vecslice_at_tail();
    w.push_back(1);
    w.push_back(2);
    assert_eq!(w.to_vec(), vec![1, 2]);
    assert_eq!(v, vec![1, 2]);
}

#[test]
fn scenario_insert_inside_window() {
    let mut v = vec![0, 1, 2, 3];
    let mut w = v.vecslice(Bounds::inclusive(1, 2));
    assert_eq!(w.to_vec(), vec![1, 2]);
    w.insert(1, 4);
    assert_eq!(w.to_vec(), vec![1, 4, 2]);
    assert_eq!(v, vec![0, 1, 4, 2, 3]);
}

#[test]
fn insert_at_window_end() {
    let mut v = vec![0, 1, 2, 3];
    let mut w = v.vecslice(Bounds::inclusive(1, 2));
    w.insert(1, 4);
    w.insert(3, 5);
    assert_eq!(w.to_vec(), vec![1, 4, 2, 5]);
    assert_eq!(v, vec![0, 1, 4, 2, 5, 3]);
}

#[test]
fn translate_range_covers_every_bound_shape() {
    type W<'a> = VecSlice<'a, u8, Vec<u8>>;
    let b = |start, end| Bounds { start, end };
    assert_eq!(W::translate_range(b(Bound::Included(1), Bound::Included(3)), 10, 20), (11, 14));
    assert_eq!(W::translate_range(b(Bound::Included(1), Bound::Excluded(3)), 10, 20), (11, 13));
    assert_eq!(W::translate_range(b(Bound::Included(1), Bound::Unbounded), 10, 20), (11, 20));
    assert_eq!(W::translate_range(b(Bound::Excluded(1), Bound::Included(3)), 10, 20), (12, 14));
    assert_eq!(W::translate_range(b(Bound::Excluded(1), Bound::Excluded(3)), 10, 20), (12, 13));
    assert_eq!(W::translate_range(b(Bound::Excluded(1), Bound::Unbounded), 10, 20), (12, 20));
    assert_eq!(W::translate_range(b(Bound::Unbounded, Bound::Included(3)), 10, 20), (10, 14));
    assert_eq!(W::translate_range(b(Bound::Unbounded, Bound::Excluded(3)), 10, 20), (10, 13));
    assert_eq!(W::translate_range(b(Bound::Unbounded, Bound::Unbounded), 10, 20), (10, 20));
}

#[test]
fn bounds_constructors_match_range_syntax() {
    assert_eq!(Bounds::full(), Bounds { start: Bound::Unbounded, end: Bound::Unbounded });
    assert_eq!(Bounds::range(1, 4), Bounds { start: Bound::Included(1), end: Bound::Excluded(4) });
    assert_eq!(Bounds::inclusive(1, 4), Bounds { start: Bound::Included(1), end: Bound::Included(4) });
    assert_eq!(Bounds::starting_at(2), Bounds { start: Bound::Included(2), end: Bound::Unbounded });
    assert_eq!(Bounds::up_to(3), Bounds { start: Bound::Unbounded, end: Bound::Excluded(3) });
    assert_eq!(Bounds::up_to_inclusive(3), Bounds { start: Bound::Unbounded, end: Bound::Included(3) });
}

#[test]
fn new_window_reads_the_selected_part() {
    for n in 0..6usize {
        let base: Vec<usize> = (0..n).collect();
        for lo in 0..=n {
            for hi in lo..=n {
                let mut v = base.clone();
                let w = v.vecslice(Bounds::range(lo, hi));
                assert_eq!(w.to_vec(), base[lo..hi].to_vec());
                assert_eq!(w.len(), hi - lo);
                assert_eq!(w.is_empty(), lo == hi);
            }
        }
        let mut v = base.clone();
        assert_eq!(v.vecslice(Bounds::full()).to_vec(), base);
        let mut v = base.clone();
        assert_eq!(v.vecslice(Bounds::up_to(n)).to_vec(), base);
        let mut v = base.clone();
        assert_eq!(v.vecslice(Bounds::starting_at(0)).to_vec(), base);
        if n > 0 {
            let mut v = base.clone();
            assert_eq!(v.vecslice(Bounds::up_to_inclusive(n - 1)).to_vec(), base);
        }
    }
}

#[test]
fn new_over_a_backing_value_directly() {
    let mut v = vec![7, 8, 9];
    let w = VecSlice::new(Bounds::range(1, 3), &mut v);
    assert_eq!(w.to_vec(), vec![8, 9]);
    assert_eq!((w.start, w.end), (1, 3));
}

#[test]
fn head_and_tail_windows_start_empty() {
    for n in 0..4usize {
        let mut v: Vec<usize> = (0..n).collect();
        assert!(v.vecslice_at_tail().is_empty());
        assert!(v.vecslice_at_head().is_empty());
        assert_eq!(v.vecslice_at_tail().start, n);
        assert_eq!(v.vecslice_at_head().start, 0);
    }
}

#[test]
fn tail_window_pushes_keep_earlier_elements_in_place() {
    for i in 0..10usize {
        let mut v: Vec<usize> = (0..i).collect();
        let mut w = v.vecslice_at_tail();
        for x in i..10 {
            w.push_back(x);
        }
        assert_eq!(w.to_vec(), (i..10).collect::<Vec<_>>());
        assert_eq!(v, (0..10).collect::<Vec<_>>());
    }
}

#[test]
fn head_window_pushes_go_before_everything() {
    for i in 0..10usize {
        let mut v: Vec<usize> = (i..10).collect();
        let mut w = v.vecslice_at_head();
        for x in 0..i {
            w.push_back(x);
        }
        assert_eq!(w.to_vec(), (0..i).collect::<Vec<_>>());
        assert_eq!(v, (0..10).collect::<Vec<_>>());
    }
}

#[test]
fn push_back_and_push_front() {
    let mut v = vec![0, 1, 2, 3];
    let mut w = v.vecslice(Bounds::inclusive(1, 2));
    w.push_back(4);
    w.push_back(5);
    assert_eq!(w.to_vec(), vec![1, 2, 4, 5]);
    w.push_front(6);
    assert_eq!(w.to_vec(), vec![6, 1, 2, 4, 5]);
    assert_eq!(v, vec![0, 6, 1, 2, 4, 5, 3]);
}

#[test]
fn push_back_then_pop_back_restores() {
    let mut v = vec![0, 1, 2, 3, 4];
    let mut w = v.vecslice(Bounds::range(1, 3));
    w.push_back(9);
    assert_eq!(w.pop_back(), Some(9));
    assert_eq!(w.to_vec(), vec![1, 2]);
    assert_eq!(w.len(), 2);
    assert_eq!(v, vec![0, 1, 2, 3, 4]);
}

#[test]
fn remove_and_pops() {
    let mut v = vec![1, 2, 3];
    let mut w = v.vecslice(Bounds::range(0, 2));
    assert_eq!(w.remove(1), 2);
    assert_eq!(w.to_vec(), vec![1]);
    assert_eq!(v, vec![1, 3]);

    let mut v = vec![0, 1, 2, 3];
    let mut w = v.vecslice(Bounds::up_to_inclusive(2));
    assert_eq!(w.pop_back(), Some(2));
    assert_eq!(w.to_vec(), vec![0, 1]);
    assert_eq!(v, vec![0, 1, 3]);

    let mut v = vec![0, 1, 2, 3];
    let mut w = v.vecslice(Bounds::starting_at(1));
    assert_eq!(w.pop_front(), Some(1));
    assert_eq!(w.to_vec(), vec![2, 3]);
    assert_eq!(v, vec![0, 2, 3]);
}

#[test]
fn pops_on_empty_window_give_none() {
    let mut v = vec![1, 2];
    let mut w = v.vecslice(Bounds::range(1, 1));
    assert_eq!(w.pop_back(), None);
    assert_eq!(w.pop_front(), None);
    assert_eq!(v, vec![1, 2]);
}

#[test]
fn edits_keep_bounds_and_count() {
    let mut v: Vec<i32> = (0..8).collect();
    let mut w = v.vecslice(Bounds::range(2, 5));
    let mut expected_len: usize = 3;
    w.insert(1, 100);
    expected_len += 1;
    w.push_front(101);
    expected_len += 1;
    w.remove(0);
    expected_len -= 1;
    w.pop_back();
    expected_len -= 1;
    w.drain(Bounds::range(0, 2)).finish();
    expected_len -= 2;
    w.push_back(102);
    expected_len += 1;
    assert_eq!(w.len(), expected_len);
    assert_eq!(w.start, 2);
    assert!(w.start <= w.end && w.end <= w.original.len());
    assert_eq!(w.to_vec(), vec![3, 102]);
    assert_eq!(v, vec![0, 1, 3, 102, 5, 6, 7]);
}

#[test]
fn drain_shrinks_whatever_is_consumed() {
    for consumed in 0..4usize {
        let mut v: Vec<i32> = (0..8).collect();
        let mut w = v.vecslice(Bounds::range(1, 7));
        let mut d = w.drain(Bounds::range(1, 4));
        assert_eq!(d.len(), 3);
        for _ in 0..consumed {
            d.next();
        }
        assert_eq!(d.len(), 3 - consumed.min(3));
        d.finish();
        assert_eq!(w.len(), 3);
        assert_eq!(w.to_vec(), vec![1, 5, 6]);
        assert_eq!(v, vec![0, 1, 5, 6, 7]);
    }
}

#[test]
fn drain_yields_in_order_then_none() {
    let mut v = vec![10, 11, 12, 13];
    let mut w = v.vecslice(Bounds::full());
    let mut d = w.drain(Bounds::range(1, 3));
    assert_eq!(d.next(), Some(11));
    assert_eq!(d.next(), Some(12));
    assert_eq!(d.next(), None);
    assert_eq!(d.len(), 0);
    d.finish();
    assert_eq!(v, vec![10, 13]);
}

#[test]
fn drain_removes_lazily_one_element_per_next() {
    let mut v = vec![1, 2, 3];
    let mut w = v.vecslice(Bounds::full());
    let mut d = w.drain(Bounds::range(0, 2));
    assert_eq!(d.original.original.len(), 3);
    assert_eq!((d.original.start, d.original.end, d.original.pending), (0, 1, 2));
    assert_eq!(d.next(), Some(1));
    assert_eq!(d.original.original.len(), 2);
    assert_eq!(d.len(), 1);
    d.finish();
    assert_eq!(w.to_vec(), vec![3]);
    assert_eq!(w.pending, 0);
    assert_eq!(v, vec![3]);
}

#[test]
fn drain_everything_and_clear() {
    let mut v = vec![0, 1, 2, 3, 4, 5];
    let mut w = v.vecslice(Bounds::inclusive(1, 2));
    w.drain(Bounds::full()).finish();
    assert!(w.is_empty());
    assert_eq!(v, vec![0, 3, 4, 5]);

    let mut v = vec![1, 2, 3];
    let mut w = v.vecslice(Bounds::starting_at(1));
    w.clear();
    assert!(w.is_empty());
    assert_eq!(v, vec![1]);
}

#[test]
fn nested_window_matches_direct_window() {
    let mut v: Vec<i32> = (0..10).collect();
    let mut outer = v.vecslice(Bounds::range(2, 8));
    let inner = outer.vecslice(Bounds::range(1, 3));
    let nested = inner.to_vec();
    let mut v2: Vec<i32> = (0..10).collect();
    let direct = v2.vecslice(Bounds::range(3, 5)).to_vec();
    assert_eq!(nested, direct);
    assert_eq!(nested, vec![3, 4]);
}

#[test]
fn nested_window_edits_reach_the_root() {
    let mut v = vec![1, 2, 3];
    let mut outer = v.vecslice(Bounds::full());
    let mut inner = outer.vecslice_at_tail();
    assert!(inner.is_empty());
    inner.push_back(4);
    assert_eq!(inner.to_vec(), vec![4]);
    drop(inner);
    assert_eq!(outer.to_vec(), vec![1, 2, 3, 4]);
    assert_eq!(v, vec![1, 2, 3, 4]);

    let mut v = vec![1, 2, 3];
    let mut outer = v.vecslice(Bounds::starting_at(0));
    let mut inner = outer.vecslice_at_head();
    inner.push_back(4);
    drop(inner);
    assert_eq!(v, vec![4, 1, 2, 3]);
}

#[test]
fn three_levels_of_nesting() {
    let mut v: Vec<i32> = Vec::new();
    let mut a = v.vecslice_at_head();
    let mut b = a.vecslice_at_head();
    let mut c = b.vecslice_at_head();
    c.push_back(1);
    c.push_front(0);
    assert_eq!(c.to_vec(), vec![0, 1]);
    drop(c);
    assert_eq!(b.len(), 2);
    drop(b);
    assert_eq!(a.len(), 2);
    assert_eq!(v, vec![0, 1]);
}

#[test]
fn to_vec_and_into_vec_copy() {
    let mut v = vec![1, 2, 3];
    let w = v.vecslice(Bounds::range(0, 2));
    assert_eq!(w.to_vec(), vec![1, 2]);
    assert_eq!(w.into_vec(), vec![1, 2]);
    assert_eq!(v, vec![1, 2, 3]);
}

#[test]
fn sort_orders_only_the_window() {
    let mut v = vec![-5, 4, -3, 2, 1];
    let mut w = v.vecslice(Bounds::inclusive(1, 3));
    w.sort();
    assert_eq!(w.to_vec(), vec![-3, 2, 4]);
    assert_eq!(v, vec![-5, -3, 2, 4, 1]);
}

#[test]
fn sort_unstable_orders_only_the_window() {
    let mut v = vec![-5, 4, -3, 2, 1];
    let mut w = v.vecslice(Bounds::inclusive(1, 3));
    w.sort_unstable();
    assert_eq!(w.to_vec(), vec![-3, 2, 4]);
    assert_eq!(v, vec![-5, -3, 2, 4, 1]);
}

#[test]
fn sort_keeps_equal_elements_in_order() {
    let mut v = vec![(9, 'z'), (2, 'a'), (1, 'b'), (2, 'a'), (1, 'b')];
    let mut w = v.vecslice(Bounds::starting_at(1));
    w.sort();
    assert_eq!(v, vec![(9, 'z'), (1, 'b'), (1, 'b'), (2, 'a'), (2, 'a')]);
}

#[test]
fn iter_walks_the_window() {
    let mut v = vec![0, 1, 2, 3, 4, 5];
    let w = v.vecslice(Bounds::inclusive(1, 3));
    let mut it = w.iter();
    assert_eq!(it.next(), Some(&1));
    assert_eq!(it.next(), Some(&2));
    assert_eq!(it.next(), Some(&3));
    assert_eq!(it.next(), None);
}

#[test]
fn index_and_index_mut_are_relative_to_the_window() {
    let mut v = vec![0, 1, 2, 3, 4, 5];
    let mut w = v.vecslice(Bounds::range(2, 6));
    assert_eq!(w.index(Bounds::range(1, 3)), &[3, 4]);
    assert_eq!(w.index(Bounds::full()), &[2, 3, 4, 5]);
    assert_eq!(w.index(Bounds::up_to_inclusive(0)), &[2]);
    for x in w.index_mut(Bounds::starting_at(2)) {
        *x *= 10;
    }
    assert_eq!(w.to_vec(), vec![2, 3, 40, 50]);
    assert_eq!(v, vec![0, 1, 2, 3, 40, 50]);
}

#[test]
fn extend_appends_in_order() {
    let mut v = vec![0, 9];
    let mut w = v.vecslice(Bounds::range(1, 1));
    w.extend(vec![1, 2, 3]);
    assert_eq!(w.to_vec(), vec![1, 2, 3]);
    assert_eq!(v, vec![0, 1, 2, 3, 9]);
}

#[test]
fn into_original_gives_the_backing_back() {
    let mut v = vec![1, 2, 3];
    let mut w = v.vecslice(Bounds::range(0, 1));
    w.push_back(7);
    let back = w.into_original();
    back.push(8);
    assert_eq!(v, vec![1, 7, 2, 3, 8]);
}

#[test]
fn nested_insert_shifts_the_root_at_the_summed_offset() {
    let mut v = vec![0, 1, 2, 3, 4, 5];
    let mut outer = v.vecslice(Bounds::range(1, 5));
    let mut inner = outer.vecslice(Bounds::range(1, 3));
    inner.insert(1, 9);
    assert_eq!(inner.to_vec(), vec![2, 9, 3]);
    drop(inner);
    assert_eq!((outer.start, outer.len()), (1, 5));
    assert_eq!(outer.to_vec(), vec![1, 2, 9, 3, 4]);
    assert_eq!(v, vec![0, 1, 2, 9, 3, 4, 5]);
}

#[test]
fn into_vec_leaves_the_backing_alone() {
    let mut v = vec![4, 5, 6, 7];
    let w = v.vecslice(Bounds::range(1, 3));
    assert_eq!(w.into_vec(), vec![5, 6]);
    assert_eq!(v, vec![4, 5, 6, 7]);
}
