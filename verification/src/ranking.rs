//! Putting the items of a list in the order that a page shows them.

use vstd::prelude::*;

verus! {

/// Items that a list orders by a rank: higher ranks come first.
pub trait Ranked: Sized {
    /// The rank of the item.
    spec fn rank(&self) -> int;

    /// The rank of the item.
    fn rank_of(&self) -> (r: i64)
        ensures
            r == self.rank(),
    ;
}

/// A pair ranked by its first component (a count of plays, a date).
impl<T> Ranked for (i64, T) {
    open spec fn rank(&self) -> int {
        self.0 as int
    }

    fn rank_of(&self) -> (r: i64) {
        self.0
    }
}

/// The rank of a (count, item) pair is its count: lists of such pairs put
/// the larger counts (more plays, later dates) first.
pub proof fn law_pair_rank_is_count<T>(p: (i64, T))
    ensures
        p.rank() == p.0 as int,
{
}

/// Pairs in rank order have non-increasing first components.
pub proof fn lemma_pairs_by_count<T>(s: Seq<(i64, T)>)
    requires
        ranked_order(s),
    ensures
        forall|a: int, b: int| 0 <= a < b < s.len() ==> s[a].0 >= s[b].0,
{
    assert forall|a: int, b: int| 0 <= a < b < s.len() implies s[a].0 >= s[b].0 by {
        law_pair_rank_is_count(s[a]);
        law_pair_rank_is_count(s[b]);
    }
}

/// The items are in order of non-increasing rank.
pub open spec fn ranked_order<T: Ranked>(s: Seq<T>) -> bool {
    forall|i: int, j: int| 0 <= i < j < s.len() ==> s[i].rank() >= s[j].rank()
}

/// Whether an item has rank `k`.
pub open spec fn rank_is<T: Ranked>(k: int) -> spec_fn(T) -> bool {
    |y: T| y.rank() == k
}

/// The items of rank `k`, in their order.
pub open spec fn with_rank<T: Ranked>(s: Seq<T>, k: int) -> Seq<T> {
    s.filter(rank_is::<T>(k))
}

/// A sequence none of whose items has rank `k` has no item of that rank.
proof fn lemma_with_rank_none<T: Ranked>(s: Seq<T>, k: int)
    requires
        forall|i: int| 0 <= i < s.len() ==> (#[trigger] s[i]).rank() != k,
    ensures
        with_rank(s, k) == Seq::<T>::empty(),
{
    let f = with_rank(s, k);
    if f.len() > 0 {
        broadcast use vstd::seq_lib::group_filter_ensures;
        let e = f[0];
        assert(f.contains(e)) by {
            assert(f[0] == e);
        }
        s.lemma_filter_contains_rev(rank_is::<T>(k), e);
        let i = choose|i: int| 0 <= i < s.len() && s[i] == e;
        assert(s[i].rank() != k);
    }
    assert(with_rank(s, k) =~= Seq::<T>::empty());
}

/// The items of rank `k` of a one-item sequence.
proof fn lemma_with_rank_single<T: Ranked>(x: T, k: int)
    ensures
        with_rank(seq![x], k) == (if x.rank() == k {
            seq![x]
        } else {
            Seq::<T>::empty()
        }),
{
    reveal_with_fuel(Seq::filter, 2);
    assert(seq![x].drop_last() =~= Seq::<T>::empty());
}

/// Inserting an item after all items of at least its rank, and before all
/// items of lower rank, puts it after the items of its rank.
proof fn lemma_with_rank_insert<T: Ranked>(prev: Seq<T>, j: int, x: T, k: int)
    requires
        0 <= j <= prev.len(),
        forall|i: int| 0 <= i < j ==> (#[trigger] prev[i]).rank() >= x.rank(),
        forall|i: int| j <= i < prev.len() ==> (#[trigger] prev[i]).rank() < x.rank(),
    ensures
        with_rank(prev.insert(j, x), k) == (if x.rank() == k {
            with_rank(prev, k).push(x)
        } else {
            with_rank(prev, k)
        }),
{
    let p = rank_is::<T>(k);
    let a = prev.subrange(0, j);
    let b = prev.subrange(j, prev.len() as int);
    assert(prev.insert(j, x) =~= a + seq![x] + b);
    assert(prev =~= a + b);
    Seq::filter_distributes_over_add(a + seq![x], b, p);
    Seq::filter_distributes_over_add(a, seq![x], p);
    Seq::filter_distributes_over_add(a, b, p);
    lemma_with_rank_single(x, k);
    if x.rank() == k {
        assert forall|i: int| 0 <= i < b.len() implies (#[trigger] b[i]).rank() != k by {
            assert(b[i] == prev[j + i]);
        }
        lemma_with_rank_none(b, k);
        assert(with_rank(prev, k) == with_rank(a, k) + with_rank(b, k));
        assert(with_rank(prev, k) =~= with_rank(a, k));
        assert(with_rank(prev.insert(j, x), k) =~= with_rank(a, k).push(x));
    } else {
        assert(with_rank(prev.insert(j, x), k) =~= with_rank(a, k) + with_rank(b, k));
    }
}

/// Puts the items in order of non-increasing rank; items of equal rank keep
/// their order. The result holds the same items.
pub fn sort_by_rank<T: Ranked>(items: Vec<T>) -> (out: Vec<T>)
    ensures
        out@.to_multiset() == items@.to_multiset(),
        ranked_order(out@),
        forall|k: int| #[trigger] with_rank(out@, k) == with_rank(items@, k),
{
    let ghost orig = items@;
    let mut items = items;
    let mut out: Vec<T> = Vec::new();
    let ghost mut consumed: Seq<T> = Seq::empty();
    proof {
        assert forall|k: int| #[trigger] with_rank(out@, k) == with_rank(consumed, k) by {
            assert(out@ =~= consumed);
        }
        assert(consumed + items@ =~= orig);
    }
    proof {
        broadcast use vstd::multiset::group_multiset_axioms, vstd::seq_lib::group_to_multiset_ensures,
            vstd::multiset::lemma_multiset_empty_len;
        assert(out@.to_multiset() =~= vstd::multiset::Multiset::empty());
        assert(out@.to_multiset().add(items@.to_multiset()) =~= orig.to_multiset());
    }
    while items.len() > 0
        invariant
            out@.to_multiset().add(items@.to_multiset()) == orig.to_multiset(),
            ranked_order(out@),
            consumed + items@ == orig,
            forall|k: int| #[trigger] with_rank(out@, k) == with_rank(consumed, k),
        decreases items@.len(),
    {
        let ghost rest = items@;
        let x = items.remove(0);
        let r = x.rank_of();
        let mut j: usize = 0;
        while j < out.len() && out[j].rank_of() >= r
            invariant
                j <= out@.len(),
                forall|k: int| 0 <= k < j ==> (#[trigger] out@[k]).rank() >= r,
            decreases out@.len() - j,
        {
            j = j + 1;
        }
        let ghost prev = out@;
        out.insert(j, x);
        proof {
            assert forall|i: int| j <= i < prev.len() implies (#[trigger] prev[i]).rank() < r by {
                if j < prev.len() {
                    assert(prev[j as int].rank() < r);
                    assert(prev[j as int].rank() >= prev[i].rank());
                }
            }
            let ghost old_consumed = consumed;
            consumed = consumed.push(x);
            assert(consumed + items@ =~= orig) by {
                assert(rest =~= seq![x] + items@);
            }
            assert forall|k: int| #[trigger] with_rank(out@, k) == with_rank(consumed, k) by {
                lemma_with_rank_insert(prev, j as int, x, k);
                assert(out@ == prev.insert(j as int, x));
                Seq::filter_distributes_over_add(old_consumed, seq![x], rank_is::<T>(k));
                assert(consumed =~= old_consumed + seq![x]);
                lemma_with_rank_single(x, k);
                assert(with_rank(prev, k) == with_rank(old_consumed, k));
                if x.rank() == k {
                    assert(with_rank(consumed, k) =~= with_rank(old_consumed, k).push(x));
                } else {
                    assert(with_rank(consumed, k) =~= with_rank(old_consumed, k));
                }
            }
        }
        proof {
            broadcast use vstd::multiset::group_multiset_axioms, vstd::seq_lib::group_to_multiset_ensures;
            assert(rest.remove(0) == items@);
            assert(rest.remove(0).to_multiset() =~= rest.to_multiset().remove(x));
            assert(out@.to_multiset() =~= prev.to_multiset().insert(x));
            assert(rest.to_multiset().count(x) > 0);
            assert(out@.to_multiset().add(items@.to_multiset()) =~= orig.to_multiset());
            assert forall|a: int, b: int| 0 <= a < b < out@.len() implies out@[a].rank() >= out@[b].rank() by {
                if j < prev.len() {
                    assert(prev[j as int].rank() < r);
                }
                if a < j && b == j {
                } else if a == j && b > j {
                    assert(out@[b] == prev[b - 1]);
                    assert(prev[j as int].rank() >= prev[b - 1].rank());
                } else {
                    let pa = if a < j { a } else { a - 1 };
                    let pb = if b < j { b } else { b - 1 };
                    assert(out@[a] == prev[pa]);
                    assert(out@[b] == prev[pb]);
                }
            }
        }
    }
    proof {
        broadcast use vstd::multiset::group_multiset_axioms, vstd::seq_lib::group_to_multiset_ensures,
            vstd::multiset::lemma_multiset_empty_len;
        assert(items@.to_multiset() =~= vstd::multiset::Multiset::empty());
        assert(out@.to_multiset() =~= out@.to_multiset().add(items@.to_multiset()));
        assert(consumed =~= orig);
    }
    out
}

} // verus!
