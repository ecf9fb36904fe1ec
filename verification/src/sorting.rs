//! Stable insertion order: the sequences that a stable sort produces.
use vstd::prelude::*;

verus! {

/// `x` placed into `s` after every item that it does not have to precede
/// (`before(x, y)`: `x` must come before `y`).
pub open spec fn insert_by<T>(s: Seq<T>, x: T, before: spec_fn(T, T) -> bool) -> Seq<T>
    decreases s.len(),
{
    if s.len() == 0 {
        seq![x]
    } else if before(x, s.last()) {
        insert_by(s.drop_last(), x, before).push(s.last())
    } else {
        s.push(x)
    }
}

/// The items of `s` by insertion, one after the other: the order of a
/// stable sort, items that need not precede one another keeping their order.
pub open spec fn sort_by<T>(s: Seq<T>, before: spec_fn(T, T) -> bool) -> Seq<T>
    decreases s.len(),
{
    if s.len() == 0 {
        s
    } else {
        insert_by(sort_by(s.drop_last(), before), s.last(), before)
    }
}

/// Inserting at the first place after which only items that `x` must
/// precede remain.
pub proof fn lemma_insert_by_at<T>(s: Seq<T>, x: T, before: spec_fn(T, T) -> bool, j: int)
    requires
        0 <= j <= s.len(),
        forall|k: int| j <= k < s.len() ==> before(x, #[trigger] s[k]),
        j == 0 || !before(x, s[j - 1]),
    ensures
        insert_by(s, x, before) == s.insert(j, x),
    decreases s.len(),
{
    if s.len() == j {
        if j == 0 {
            assert(s.insert(j, x) =~= seq![x]);
        } else {
            assert(s.insert(j, x) =~= s.push(x));
        }
    } else {
        assert(before(x, s[s.len() - 1]));
        let t = s.drop_last();
        assert forall|k: int| j <= k < t.len() implies before(x, #[trigger] t[k]) by {
            assert(t[k] == s[k]);
        }
        if j > 0 {
            assert(t[j - 1] == s[j - 1]);
        }
        lemma_insert_by_at(t, x, before, j);
        assert(t.insert(j, x).push(s.last()) =~= s.insert(j, x));
    }
}

/// Inserting adds the item and keeps the others.
pub proof fn insert_by_adds_the_item<T>(s: Seq<T>, x: T, before: spec_fn(T, T) -> bool)
    ensures
        insert_by(s, x, before).to_multiset() == s.to_multiset().insert(x),
    decreases s.len(),
{
    broadcast use vstd::seq_lib::group_to_multiset_ensures;

    if s.len() == 0 {
        assert(seq![x] =~= Seq::<T>::empty().push(x));
    } else if before(x, s.last()) {
        insert_by_adds_the_item(s.drop_last(), x, before);
        assert(s.drop_last().push(s.last()) =~= s);
    } else {
    }
}

/// A stable sort keeps exactly the items it was given.
pub proof fn sort_by_permutes<T>(s: Seq<T>, before: spec_fn(T, T) -> bool)
    ensures
        sort_by(s, before).to_multiset() == s.to_multiset(),
    decreases s.len(),
{
    broadcast use vstd::seq_lib::group_to_multiset_ensures;

    if s.len() > 0 {
        sort_by_permutes(s.drop_last(), before);
        insert_by_adds_the_item(sort_by(s.drop_last(), before), s.last(), before);
        assert(s.drop_last().push(s.last()) =~= s);
    }
}


/// `before` orders strictly and weakly: never both ways, and items that
/// need not precede one another in a chain need not precede the last one.
pub open spec fn strict_weak_order<T>(before: spec_fn(T, T) -> bool) -> bool {
    &&& forall|a: T, b: T| #[trigger] before(a, b) ==> !before(b, a)
    &&& forall|a: T, b: T, c: T|
        #![trigger before(a, b), before(b, c)]
        !before(a, b) && !before(b, c) ==> !before(a, c)
}

/// No item of `s` must come before an earlier one.
pub open spec fn ordered_by<T>(s: Seq<T>, before: spec_fn(T, T) -> bool) -> bool {
    forall|i: int, j: int| 0 <= i < j < s.len() ==> !before(#[trigger] s[j], #[trigger] s[i])
}

proof fn insert_by_keeps_order<T>(s: Seq<T>, x: T, before: spec_fn(T, T) -> bool)
    requires
        strict_weak_order(before),
        ordered_by(s, before),
    ensures
        ordered_by(insert_by(s, x, before), before),
        forall|k: int|
            0 <= k < insert_by(s, x, before).len() ==> #[trigger] insert_by(s, x, before)[k] == x
                || exists|i: int| 0 <= i < s.len() && insert_by(s, x, before)[k] == s[i],
    decreases s.len(),
{
    if s.len() == 0 {
    } else if before(x, s.last()) {
        let t = s.drop_last();
        assert forall|i: int, j: int| 0 <= i < j < t.len() implies !before(#[trigger] t[j], #[trigger] t[i]) by {
            assert(t[j] == s[j] && t[i] == s[i]);
        }
        insert_by_keeps_order(t, x, before);
        let u = insert_by(t, x, before);
        let r = u.push(s.last());
        assert forall|i: int, j: int| 0 <= i < j < r.len() implies !before(#[trigger] r[j], #[trigger] r[i]) by {
            if j == r.len() - 1 {
                assert(r[j] == s.last());
                assert(r[i] == u[i]);
                if u[i] == x {
                } else {
                    let m = choose|m: int| 0 <= m < t.len() && u[i] == t[m];
                    assert(t[m] == s[m]);
                    assert(!before(s[s.len() - 1], s[m]));
                }
            } else {
                assert(r[i] == u[i] && r[j] == u[j]);
            }
        }
        assert forall|k: int| 0 <= k < r.len() implies #[trigger] r[k] == x || exists|i: int|
            0 <= i < s.len() && r[k] == s[i] by {
            if k == r.len() - 1 {
                assert(r[k] == s[s.len() - 1]);
            } else {
                assert(r[k] == u[k]);
                if u[k] != x {
                    let m = choose|m: int| 0 <= m < t.len() && u[k] == t[m];
                    assert(t[m] == s[m]);
                }
            }
        }
    } else {
        let r = s.push(x);
        assert forall|i: int, j: int| 0 <= i < j < r.len() implies !before(#[trigger] r[j], #[trigger] r[i]) by {
            if j == r.len() - 1 {
                assert(r[j] == x);
                assert(r[i] == s[i]);
                if i < s.len() - 1 {
                    assert(!before(s[s.len() - 1], s[i]));
                    assert(!before(x, s[s.len() - 1]));
                }
            } else {
                assert(r[i] == s[i] && r[j] == s[j]);
            }
        }
        assert forall|k: int| 0 <= k < r.len() implies #[trigger] r[k] == x || exists|i: int|
            0 <= i < s.len() && r[k] == s[i] by {
            if k < s.len() {
                assert(r[k] == s[k]);
            }
        }
    }
}

/// A stable sort by a strict weak order leaves no item behind one that it
/// must precede.
pub proof fn sort_by_orders<T>(s: Seq<T>, before: spec_fn(T, T) -> bool)
    requires
        strict_weak_order(before),
    ensures
        ordered_by(sort_by(s, before), before),
    decreases s.len(),
{
    if s.len() > 0 {
        sort_by_orders(s.drop_last(), before);
        insert_by_keeps_order(sort_by(s.drop_last(), before), s.last(), before);
    }
}

} // verus!
