//! Stable ordering from largest to smallest.

use vstd::prelude::*;

verus! {

/// A value with a size by which it is ordered.
pub trait Weighed {
    spec fn weight(&self) -> int;
}

/// A weighed value whose size can be read at run time.
pub trait WeighedExec: Weighed {
    fn weight_of(&self) -> (w: u64)
        ensures
            w == self.weight();
}

/// The sum of the weights in `s`.
pub open spec fn total_weight<T: Weighed>(s: Seq<T>) -> int
    decreases s.len(),
{
    if s.len() == 0 {
        0
    } else {
        total_weight(s.drop_last()) + s.last().weight()
    }
}

/// No element of `s` weighs more than the one before it.
pub open spec fn sorted_desc<T: Weighed>(s: Seq<T>) -> bool {
    forall|i: int, j: int| 0 <= i < j < s.len() ==> s[i].weight() >= s[j].weight()
}

/// Where a value of weight `w` goes in `s`: before the first lighter element.
pub open spec fn insert_position<T: Weighed>(s: Seq<T>, w: int) -> int
    decreases s.len(),
{
    if s.len() == 0 {
        0
    } else if s[0].weight() < w {
        0
    } else {
        1 + insert_position(s.drop_first(), w)
    }
}

/// `x` placed after every element of `s` at least as heavy as it.
pub open spec fn insert_by_weight<T: Weighed>(s: Seq<T>, x: T) -> Seq<T> {
    s.insert(insert_position(s, x.weight()), x)
}

/// `s` ordered from heaviest to lightest; elements of equal weight keep
/// their relative order.
pub open spec fn sort_desc<T: Weighed>(s: Seq<T>) -> Seq<T>
    decreases s.len(),
{
    if s.len() == 0 {
        s
    } else {
        insert_by_weight(sort_desc(s.drop_last()), s.last())
    }
}

pub proof fn lemma_insert_position_bounds<T: Weighed>(s: Seq<T>, w: int)
    ensures
        0 <= insert_position(s, w) <= s.len(),
        forall|k: int| 0 <= k < insert_position(s, w) ==> s[k].weight() >= w,
        insert_position(s, w) < s.len() ==> s[insert_position(s, w)].weight() < w,
    decreases s.len(),
{
    if s.len() > 0 && s[0].weight() >= w {
        lemma_insert_position_bounds(s.drop_first(), w);
        let p = insert_position(s, w);
        assert forall|k: int| 0 <= k < p implies s[k].weight() >= w by {
            if k > 0 {
                assert(s[k] == s.drop_first()[k - 1]);
            }
        }
    }
}

pub proof fn lemma_insert_position_at<T: Weighed>(s: Seq<T>, w: int, j: int)
    requires
        0 <= j <= s.len(),
        forall|k: int| 0 <= k < j ==> s[k].weight() >= w,
        j < s.len() ==> s[j].weight() < w,
    ensures
        insert_position(s, w) == j,
    decreases j,
{
    if j > 0 {
        assert forall|k: int| 0 <= k < j - 1 implies s.drop_first()[k].weight() >= w by {
            assert(s.drop_first()[k] == s[k + 1]);
        }
        if j - 1 < s.drop_first().len() {
            assert(s.drop_first()[j - 1] == s[j]);
        }
        lemma_insert_position_at(s.drop_first(), w, j - 1);
    }
}

pub proof fn lemma_total_weight_insert<T: Weighed>(s: Seq<T>, i: int, x: T)
    requires
        0 <= i <= s.len(),
    ensures
        total_weight(s.insert(i, x)) == total_weight(s) + x.weight(),
    decreases s.len(),
{
    if i == s.len() {
        assert(s.insert(i, x) =~= s.push(x));
        assert(s.push(x).drop_last() =~= s);
    } else {
        lemma_total_weight_insert(s.drop_last(), i, x);
        assert(s.insert(i, x).drop_last() =~= s.drop_last().insert(i, x));
        assert(s.insert(i, x).last() == s.last());
    }
}

pub proof fn lemma_total_weight_push<T: Weighed>(s: Seq<T>, x: T)
    ensures
        total_weight(s.push(x)) == total_weight(s) + x.weight(),
{
    assert(s.push(x).drop_last() =~= s);
}

/// Sorting keeps the elements: the result is a permutation of the input.
pub proof fn lemma_sort_desc_permutes<T: Weighed>(s: Seq<T>)
    ensures
        sort_desc(s).to_multiset() == s.to_multiset(),
        sort_desc(s).len() == s.len(),
    decreases s.len(),
{
    broadcast use vstd::seq_lib::to_multiset_insert, vstd::seq_lib::to_multiset_build;

    if s.len() > 0 {
        lemma_sort_desc_permutes(s.drop_last());
        let t = sort_desc(s.drop_last());
        lemma_insert_position_bounds(t, s.last().weight());
        assert(s =~= s.drop_last().push(s.last()));
    }
}

/// Sorting orders the elements from heaviest to lightest.
pub proof fn lemma_sort_desc_sorted<T: Weighed>(s: Seq<T>)
    ensures
        sorted_desc(sort_desc(s)),
    decreases s.len(),
{
    if s.len() > 0 {
        lemma_sort_desc_sorted(s.drop_last());
        lemma_sort_desc_permutes(s.drop_last());
        let t = sort_desc(s.drop_last());
        let x = s.last();
        let p = insert_position(t, x.weight());
        lemma_insert_position_bounds(t, x.weight());
        let r = t.insert(p, x);
        assert forall|i: int, j: int| 0 <= i < j < r.len() implies r[i].weight() >= r[j].weight() by {
            if j < p {
                assert(r[i] == t[i] && r[j] == t[j]);
            } else if j == p {
                assert(r[i] == t[i]);
            } else if i < p {
                assert(r[i] == t[i] && r[j] == t[j - 1]);
            } else if i == p {
                assert(r[j] == t[j - 1]);
                assert(t[j - 1].weight() <= t[p].weight());
            } else {
                assert(r[i] == t[i - 1] && r[j] == t[j - 1]);
            }
        }
    }
}

/// Sorting keeps the total weight.
pub proof fn lemma_sort_desc_total<T: Weighed>(s: Seq<T>)
    ensures
        total_weight(sort_desc(s)) == total_weight(s),
    decreases s.len(),
{
    if s.len() > 0 {
        lemma_sort_desc_total(s.drop_last());
        lemma_sort_desc_permutes(s.drop_last());
        let t = sort_desc(s.drop_last());
        lemma_insert_position_bounds(t, s.last().weight());
        lemma_total_weight_insert(t, insert_position(t, s.last().weight()), s.last());
    }
}

/// Sorting a sequence without repeated elements repeats none.
pub proof fn lemma_sort_desc_no_duplicates<T: Weighed>(s: Seq<T>)
    requires
        s.no_duplicates(),
    ensures
        sort_desc(s).no_duplicates(),
    decreases s.len(),
{
    broadcast use vstd::seq_lib::to_multiset_contains;

    if s.len() > 0 {
        let p = s.drop_last();
        let x = s.last();
        assert(p.no_duplicates());
        lemma_sort_desc_no_duplicates(p);
        lemma_sort_desc_permutes(p);
        let t = sort_desc(p);
        assert(!p.contains(x)) by {
            if p.contains(x) {
                let j = choose|j: int| 0 <= j < p.len() && p[j] == x;
                assert(s[j] == s[s.len() - 1]);
            }
        }
        assert(!t.contains(x)) by {
            if t.contains(x) {
                assert(t.to_multiset().count(x) > 0);
            }
        }
        lemma_insert_position_bounds(t, x.weight());
        let q = insert_position(t, x.weight());
        let r = t.insert(q, x);
        assert forall|i: int, j: int| 0 <= i < r.len() && 0 <= j < r.len() && i != j implies r[i]
            != r[j] by {
            if i != q && j != q {
                let ti = if i < q { i } else { i - 1 };
                let tj = if j < q { j } else { j - 1 };
                assert(r[i] == t[ti] && r[j] == t[tj]);
            } else if i == q {
                let tj = if j < q { j } else { j - 1 };
                assert(r[j] == t[tj]);
            } else {
                let ti = if i < q { i } else { i - 1 };
                assert(r[i] == t[ti]);
            }
        }
    }
}

proof fn lemma_insert_position_map<T: Weighed, U: Weighed>(s: Seq<T>, f: spec_fn(T) -> U, w: int)
    requires
        forall|x: T| #[trigger] f(x).weight() == x.weight(),
    ensures
        insert_position(s.map_values(f), w) == insert_position(s, w),
    decreases s.len(),
{
    if s.len() > 0 {
        assert(s.map_values(f).drop_first() =~= s.drop_first().map_values(f));
        assert(s.map_values(f)[0] == f(s[0]));
        lemma_insert_position_map(s.drop_first(), f, w);
    }
}

/// Sorting commutes with a map that keeps weights.
pub proof fn lemma_sort_desc_map<T: Weighed, U: Weighed>(s: Seq<T>, f: spec_fn(T) -> U)
    requires
        forall|x: T| #[trigger] f(x).weight() == x.weight(),
    ensures
        sort_desc(s.map_values(f)) == sort_desc(s).map_values(f),
    decreases s.len(),
{
    if s.len() > 0 {
        lemma_sort_desc_map(s.drop_last(), f);
        lemma_sort_desc_permutes(s.drop_last());
        let t = sort_desc(s.drop_last());
        assert(s.map_values(f).drop_last() =~= s.drop_last().map_values(f));
        assert(s.map_values(f).last() == f(s.last()));
        lemma_insert_position_map(t, f, s.last().weight());
        lemma_insert_position_bounds(t, s.last().weight());
        let p = insert_position(t, s.last().weight());
        assert(t.map_values(f).insert(p, f(s.last())) =~= t.insert(p, s.last()).map_values(f));
    }
}

/// Orders `v` from heaviest to lightest, keeping the relative order of equal weights.
pub fn sort_by_weight_desc<T: WeighedExec>(v: Vec<T>) -> (r: Vec<T>)
    ensures
        r@ == sort_desc(v@),
{
    let ghost orig = v@;
    let n = v.len();
    let mut rest = v;
    let mut out: Vec<T> = Vec::new();
    let mut i: usize = 0;
    assert(orig.take(0) =~= Seq::<T>::empty());
    assert(orig.skip(0) =~= orig);
    while rest.len() > 0
        invariant
            i <= orig.len(),
            rest@ == orig.skip(i as int),
            i + rest.len() == orig.len(),
            orig.len() == n,
            out@ == sort_desc(orig.take(i as int)),
        decreases rest.len(),
    {
        let x = rest.remove(0);
        assert(x == orig[i as int]);
        let w = x.weight_of();
        let mut j: usize = 0;
        while j < out.len() && out[j].weight_of() >= w
            invariant
                j <= out.len(),
                w == x.weight(),
                forall|k: int| 0 <= k < j ==> out@[k].weight() >= w,
            decreases out.len() - j,
        {
            j = j + 1;
        }
        proof {
            lemma_insert_position_at(out@, w as int, j as int);
            assert(orig.take(i + 1).drop_last() =~= orig.take(i as int));
            assert(orig.take(i + 1).last() == x);
        }
        out.insert(j, x);
        i = i + 1;
        assert(rest@ =~= orig.skip(i as int));
    }
    assert(orig.take(i as int) =~= orig);
    out
}

} // verus!
