use vstd::prelude::*;

verus! {

broadcast use vstd::seq_lib::group_seq_properties;

/// Something with a rank that sorting orders by, smallest first.
pub trait Ranked: Sized {
    spec fn rank(&self) -> int;

    fn ranks_above(&self, other: &Self) -> (r: bool)
        ensures
            r == (self.rank() > other.rank()),
    ;
}

/// Holds of an item whose rank is `k`.
pub open spec fn rank_is<A: Ranked>(k: int) -> spec_fn(A) -> bool {
    |e: A| e.rank() == k
}

/// `s` with `e` placed after every entry whose order is not greater.
pub open spec fn insert_sorted<A: Ranked>(s: Seq<A>, e: A) -> Seq<A>
    decreases s.len(),
{
    if s.len() == 0 {
        seq![e]
    } else if s.last().rank() <= e.rank() {
        s.push(e)
    } else {
        insert_sorted(s.drop_last(), e).push(s.last())
    }
}

/// `s` sorted by ascending order, entries of equal order kept in the order
/// they were added.
pub open spec fn stable_sort<A: Ranked>(s: Seq<A>) -> Seq<A>
    decreases s.len(),
{
    if s.len() == 0 {
        s
    } else {
        insert_sorted(stable_sort(s.drop_last()), s.last())
    }
}

proof fn lemma_insert_sorted_at<A: Ranked>(s: Seq<A>, e: A, j: int)
    requires
        0 <= j <= s.len(),
        forall|k: int| j <= k < s.len() ==> s[k].rank() > e.rank(),
        j == 0 || s[j - 1].rank() <= e.rank(),
    ensures
        insert_sorted(s, e) == s.insert(j, e),
    decreases s.len(),
{
    if s.len() == 0 {
        assert(s.insert(j, e) =~= seq![e]);
    } else if j == s.len() {
        assert(s.insert(j, e) =~= s.push(e));
    } else {
        lemma_insert_sorted_at(s.drop_last(), e, j);
        assert(s.insert(j, e) =~= s.drop_last().insert(j, e).push(s.last()));
    }
}

/// Sorts `v` stably by ascending rank.
pub fn sort_by_rank<A: Ranked>(v: &mut Vec<A>)
    ensures
        final(v)@ == stable_sort(old(v)@),
{
    let ghost s = v@;
    let mut out: Vec<A> = Vec::new();
    let ghost mut i: int = 0;
    while v.len() > 0
        invariant
            0 <= i <= s.len(),
            v@ == s.skip(i),
            out@ == stable_sort(s.take(i)),
            out@.len() == i,
        decreases v.len(),
    {
        let e = v.remove(0);
        let mut j: usize = out.len();
        while j > 0 && out[j - 1].ranks_above(&e)
            invariant
                j <= out.len(),
                forall|k: int| j <= k < out@.len() ==> out@[k].rank() > e.rank(),
            decreases j,
        {
            j = j - 1;
        }
        proof {
            assert(e == s[i]);
            lemma_insert_sorted_at(out@, e, j as int);
            assert(s.take(i + 1).drop_last() =~= s.take(i));
            lemma_stable_sort_len(s.take(i + 1));
            assert(s.skip(i).remove(0) =~= s.skip(i + 1));
        }
        out.insert(j, e);
        proof {
            i = i + 1;
        }
    }
    assert(s.take(i) =~= s);
    *v = out;
}

proof fn lemma_insert_sorted_len<A: Ranked>(s: Seq<A>, e: A)
    ensures
        insert_sorted(s, e).len() == s.len() + 1,
    decreases s.len(),
{
    if s.len() > 0 && s.last().rank() > e.rank() {
        lemma_insert_sorted_len(s.drop_last(), e);
    }
}

proof fn lemma_stable_sort_len<A: Ranked>(s: Seq<A>)
    ensures
        stable_sort(s).len() == s.len(),
    decreases s.len(),
{
    if s.len() > 0 {
        lemma_stable_sort_len(s.drop_last());
        lemma_insert_sorted_len(stable_sort(s.drop_last()), s.last());
    }
}

/// True when the orders of `s` never decrease.
pub open spec fn sorted_by_rank<A: Ranked>(s: Seq<A>) -> bool {
    forall|i: int, j: int| 0 <= i < j < s.len() ==> s[i].rank() <= s[j].rank()
}

/// The entries of `s` whose order is `k`, in the order of `s`.
pub open spec fn with_rank<A: Ranked>(s: Seq<A>, k: int) -> Seq<A> {
    s.filter(rank_is(k))
}

proof fn lemma_insert_sorted_with_rank<A: Ranked>(t: Seq<A>, x: A, k: int)
    ensures
        with_rank(insert_sorted(t, x), k) == if x.rank() == k {
            with_rank(t, k).push(x)
        } else {
            with_rank(t, k)
        },
    decreases t.len(),
{
    let p = rank_is(k);
    if t.len() == 0 {
        assert(seq![x] =~= t.push(x));
        t.lemma_filter_push(x, p);
    } else if t.last().rank() <= x.rank() {
        t.lemma_filter_push(x, p);
    } else {
        let u = t.drop_last();
        lemma_insert_sorted_with_rank(u, x, k);
        insert_sorted(u, x).lemma_filter_push(t.last(), p);
        assert(u.push(t.last()) =~= t);
        u.lemma_filter_push(t.last(), p);
    }
}

proof fn lemma_insert_sorted_elems<A: Ranked>(t: Seq<A>, x: A)
    ensures
        forall|i: int|
            0 <= i < insert_sorted(t, x).len() ==> insert_sorted(t, x)[i] == x || t.contains(
                #[trigger] insert_sorted(t, x)[i],
            ),
    decreases t.len(),
{
    lemma_insert_sorted_len(t, x);
    if t.len() > 0 && t.last().rank() > x.rank() {
        let u = t.drop_last();
        lemma_insert_sorted_elems(u, x);
        lemma_insert_sorted_len(u, x);
        assert forall|i: int| 0 <= i < insert_sorted(t, x).len() implies insert_sorted(t, x)[i]
            == x || t.contains(#[trigger] insert_sorted(t, x)[i]) by {
            if i < insert_sorted(u, x).len() {
                if insert_sorted(u, x)[i] != x {
                    let k = choose|k: int| 0 <= k < u.len() && u[k] == insert_sorted(u, x)[i];
                    assert(t[k] == u[k]);
                }
            } else {
                assert(t[t.len() - 1] == t.last());
            }
        }
    } else if t.len() > 0 {
        assert forall|i: int| 0 <= i < insert_sorted(t, x).len() implies insert_sorted(t, x)[i]
            == x || t.contains(#[trigger] insert_sorted(t, x)[i]) by {
            if i < t.len() {
                assert(t[i] == insert_sorted(t, x)[i]);
            }
        }
    }
}

proof fn lemma_insert_sorted_sorted<A: Ranked>(t: Seq<A>, x: A)
    requires
        sorted_by_rank(t),
    ensures
        sorted_by_rank(insert_sorted(t, x)),
    decreases t.len(),
{
    if t.len() > 0 && t.last().rank() > x.rank() {
        let u = t.drop_last();
        lemma_insert_sorted_sorted(u, x);
        lemma_insert_sorted_elems(u, x);
        lemma_insert_sorted_len(u, x);
        let r = insert_sorted(u, x);
        assert forall|i: int| 0 <= i < r.len() implies #[trigger] r[i].rank() <= t.last().rank() by {
            if r[i] != x {
                let k = choose|k: int| 0 <= k < u.len() && u[k] == r[i];
                assert(t[k] == u[k]);
            }
        }
    }
}

/// Stability of the sort: for every order key, the entries with that key
/// keep the order in which they were added; and the result is sorted.
pub proof fn lemma_stable_sort<A: Ranked>(s: Seq<A>, k: int)
    ensures
        sorted_by_rank(stable_sort(s)),
        with_rank(stable_sort(s), k) == with_rank(s, k),
    decreases s.len(),
{
    if s.len() > 0 {
        let u = s.drop_last();
        lemma_stable_sort(u, k);
        lemma_insert_sorted_sorted(stable_sort(u), s.last());
        lemma_insert_sorted_with_rank(stable_sort(u), s.last(), k);
        assert(u.push(s.last()) =~= s);
        u.lemma_filter_push(s.last(), rank_is(k));
    }
}

/// Sorting keeps exactly the entries it was given.
pub proof fn lemma_stable_sort_contains<A: Ranked>(s: Seq<A>, e: A)
    ensures
        stable_sort(s).contains(e) <==> s.contains(e),
{
    broadcast use vstd::seq_lib::group_filter_ensures;

    let p = rank_is(e.rank());
    lemma_stable_sort(s, e.rank());
    if s.contains(e) {
        let i = choose|i: int| 0 <= i < s.len() && s[i] == e;
        s.lemma_filter_contains(p, i);
        stable_sort(s).lemma_filter_contains_rev(p, e);
    }
    if stable_sort(s).contains(e) {
        let i = choose|i: int| 0 <= i < stable_sort(s).len() && stable_sort(s)[i] == e;
        stable_sort(s).lemma_filter_contains(p, i);
        s.lemma_filter_contains_rev(p, e);
    }
}


} // verus!
