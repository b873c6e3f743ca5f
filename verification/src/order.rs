//! Stable sorting, stated once for every order the repository lists by.

use vstd::prelude::*;

verus! {

/// Any two values compare one way or the other.
pub open spec fn is_total<T>(le: spec_fn(T, T) -> bool) -> bool {
    forall|a: T, b: T| #[trigger] le(a, b) || le(b, a)
}

pub open spec fn is_transitive<T>(le: spec_fn(T, T) -> bool) -> bool {
    forall|a: T, b: T, c: T| #[trigger] le(a, b) && #[trigger] le(b, c) ==> le(a, c)
}

/// Every item of `s` comes before the items behind it.
pub open spec fn sorted_by<T>(s: Seq<T>, le: spec_fn(T, T) -> bool) -> bool {
    forall|i: int, j: int| 0 <= i < j < s.len() ==> le(#[trigger] s[i], #[trigger] s[j])
}

/// Where `x` goes in the sorted `s`: behind the last item that does not come
/// after it.
pub open spec fn insert_index<T>(s: Seq<T>, x: T, le: spec_fn(T, T) -> bool) -> int
    decreases s.len(),
{
    if s.len() == 0 {
        0
    } else if le(s.last(), x) {
        s.len() as int
    } else {
        insert_index(s.drop_last(), x, le)
    }
}

/// `s` with `x` put behind the last item that does not come after it.
pub open spec fn insert_sorted<T>(s: Seq<T>, x: T, le: spec_fn(T, T) -> bool) -> Seq<T> {
    s.insert(insert_index(s, x, le), x)
}

/// The items of `s` in ascending order; items that compare equal keep the
/// order they have in `s`.
pub open spec fn stable_sort<T>(s: Seq<T>, le: spec_fn(T, T) -> bool) -> Seq<T>
    decreases s.len(),
{
    if s.len() == 0 {
        s
    } else {
        insert_sorted(stable_sort(s.drop_last(), le), s.last(), le)
    }
}

pub proof fn lemma_insert_index<T>(s: Seq<T>, x: T, le: spec_fn(T, T) -> bool)
    ensures
        0 <= insert_index(s, x, le) <= s.len(),
        insert_index(s, x, le) > 0 ==> le(s[insert_index(s, x, le) - 1], x),
        forall|j: int| insert_index(s, x, le) <= j < s.len() ==> !le(#[trigger] s[j], x),
    decreases s.len(),
{
    if s.len() > 0 && !le(s.last(), x) {
        let d = s.drop_last();
        lemma_insert_index(d, x, le);
        assert forall|j: int| insert_index(s, x, le) <= j < s.len() implies !le(
            #[trigger] s[j],
            x,
        ) by {
            if j < d.len() {
                assert(d[j] == s[j]);
            }
        }
        if insert_index(s, x, le) > 0 {
            assert(d[insert_index(s, x, le) - 1] == s[insert_index(s, x, le) - 1]);
        }
    }
}

/// The place of `x` is the only one behind an item that does not come after
/// `x` and before none that does.
pub proof fn lemma_insert_index_unique<T>(s: Seq<T>, x: T, le: spec_fn(T, T) -> bool, p: int)
    requires
        0 <= p <= s.len(),
        p > 0 ==> le(s[p - 1], x),
        forall|j: int| p <= j < s.len() ==> !le(#[trigger] s[j], x),
    ensures
        insert_index(s, x, le) == p,
{
    lemma_insert_index(s, x, le);
    let q = insert_index(s, x, le);
    if q < p {
        assert(!le(s[p - 1], x));
    }
    if p < q {
        assert(!le(s[q - 1], x));
    }
}

pub proof fn lemma_stable_sort_len<T>(s: Seq<T>, le: spec_fn(T, T) -> bool)
    ensures
        stable_sort(s, le).len() == s.len(),
    decreases s.len(),
{
    if s.len() > 0 {
        lemma_stable_sort_len(s.drop_last(), le);
        lemma_insert_index(stable_sort(s.drop_last(), le), s.last(), le);
    }
}

pub proof fn lemma_insert_sorted_is_sorted<T>(s: Seq<T>, x: T, le: spec_fn(T, T) -> bool)
    requires
        sorted_by(s, le),
        is_total(le),
        is_transitive(le),
    ensures
        sorted_by(insert_sorted(s, x, le), le),
{
    lemma_insert_index(s, x, le);
    let p = insert_index(s, x, le);
    let r = s.insert(p, x);
    assert forall|i: int, j: int| 0 <= i < j < r.len() implies le(
        #[trigger] r[i],
        #[trigger] r[j],
    ) by {
        if j < p {
            assert(r[i] == s[i] && r[j] == s[j]);
        } else if j == p {
            assert(r[i] == s[i]);
            if i < p - 1 {
                assert(le(s[i], s[p - 1]));
            }
            assert(le(s[p - 1], x));
        } else if i == p {
            assert(r[j] == s[j - 1]);
            assert(!le(s[j - 1], x));
            assert(le(s[j - 1], x) || le(x, s[j - 1]));
        } else if i < p {
            assert(r[i] == s[i] && r[j] == s[j - 1]);
        } else {
            assert(r[i] == s[i - 1] && r[j] == s[j - 1]);
        }
    }
}

/// A stable sort is sorted.
pub proof fn lemma_stable_sort_sorted<T>(s: Seq<T>, le: spec_fn(T, T) -> bool)
    requires
        is_total(le),
        is_transitive(le),
    ensures
        sorted_by(stable_sort(s, le), le),
    decreases s.len(),
{
    if s.len() > 0 {
        lemma_stable_sort_sorted(s.drop_last(), le);
        lemma_insert_sorted_is_sorted(stable_sort(s.drop_last(), le), s.last(), le);
    }
}

pub proof fn lemma_filter_none<T>(s: Seq<T>, keep: spec_fn(T) -> bool)
    requires
        forall|i: int| 0 <= i < s.len() ==> !keep(#[trigger] s[i]),
    ensures
        s.filter(keep) == Seq::<T>::empty(),
    decreases s.len(),
{
    reveal(Seq::filter);
    if s.len() > 0 {
        let d = s.drop_last();
        assert forall|i: int| 0 <= i < d.len() implies !keep(#[trigger] d[i]) by {
            assert(d[i] == s[i]);
        }
        lemma_filter_none(d, keep);
    }
}

/// What a filter keeps of a sequence into which an item was put.
pub proof fn lemma_filter_insert<T>(s: Seq<T>, p: int, x: T, keep: spec_fn(T) -> bool)
    requires
        0 <= p <= s.len(),
    ensures
        s.insert(p, x).filter(keep) == s.subrange(0, p).filter(keep) + seq![x].filter(keep)
            + s.subrange(p, s.len() as int).filter(keep),
        s.filter(keep) == s.subrange(0, p).filter(keep) + s.subrange(p, s.len() as int).filter(
            keep,
        ),
{
    let a = s.subrange(0, p);
    let b = s.subrange(p, s.len() as int);
    assert(s.insert(p, x) =~= (a + seq![x]) + b);
    assert(s =~= a + b);
    Seq::filter_distributes_over_add(a + seq![x], b, keep);
    Seq::filter_distributes_over_add(a, seq![x], keep);
    Seq::filter_distributes_over_add(a, b, keep);
}

/// A stable sort keeps, in their order, the items that a filter keeps, where
/// the items it keeps all compare equal.
pub proof fn lemma_stable_sort_filter<T>(
    s: Seq<T>,
    le: spec_fn(T, T) -> bool,
    keep: spec_fn(T) -> bool,
)
    requires
        forall|a: T, b: T| #[trigger] keep(a) && #[trigger] keep(b) ==> le(a, b),
    ensures
        stable_sort(s, le).filter(keep) == s.filter(keep),
    decreases s.len(),
{
    reveal(Seq::filter);
    if s.len() > 0 {
        let d = s.drop_last();
        let x = s.last();
        let sd = stable_sort(d, le);
        lemma_stable_sort_filter(d, le, keep);
        lemma_insert_index(sd, x, le);
        let p = insert_index(sd, x, le);
        lemma_filter_insert(sd, p, x, keep);
        let tail = sd.subrange(p, sd.len() as int);
        assert(seq![x].drop_last() =~= Seq::<T>::empty());
        assert(Seq::<T>::empty().filter(keep) =~= Seq::<T>::empty());
        if keep(x) {
            assert forall|i: int| 0 <= i < tail.len() implies !keep(#[trigger] tail[i]) by {
                assert(tail[i] == sd[p + i]);
                assert(!le(sd[p + i], x));
            }
            lemma_filter_none(tail, keep);
            assert(seq![x].filter(keep) =~= seq![x]);
            assert(stable_sort(s, le).filter(keep) =~= sd.filter(keep).push(x));
        } else {
            assert(seq![x].filter(keep) =~= Seq::<T>::empty());
            assert(stable_sort(s, le).filter(keep) =~= sd.filter(keep));
        }
    }
}

/// A stable sort holds the items of what it sorts, and no others.
pub proof fn lemma_stable_sort_contains<T>(s: Seq<T>, le: spec_fn(T, T) -> bool, x: T)
    ensures
        stable_sort(s, le).contains(x) <==> s.contains(x),
    decreases s.len(),
{
    if s.len() > 0 {
        let d = s.drop_last();
        let sd = stable_sort(d, le);
        lemma_stable_sort_contains(d, le, x);
        lemma_insert_index(sd, s.last(), le);
        let p = insert_index(sd, s.last(), le);
        let r = sd.insert(p, s.last());
        if s.contains(x) {
            let i = choose|i: int| 0 <= i < s.len() && s[i] == x;
            if i == s.len() - 1 {
                assert(r[p] == x);
            } else {
                assert(d[i] == x);
                assert(d.contains(x));
                let k = choose|k: int| 0 <= k < sd.len() && sd[k] == x;
                if k < p {
                    assert(r[k] == x);
                } else {
                    assert(r[k + 1] == x);
                }
            }
        }
        if r.contains(x) {
            let k = choose|k: int| 0 <= k < r.len() && r[k] == x;
            if k == p {
                assert(s[s.len() - 1] == x);
            } else {
                if k < p {
                    assert(sd[k] == x);
                } else {
                    assert(sd[k - 1] == x);
                }
                assert(sd.contains(x));
                let i = choose|i: int| 0 <= i < d.len() && d[i] == x;
                assert(s[i] == x);
            }
        }
    }
}

} // verus!
