//! Ordering by priority, where a smaller number comes first.
use vstd::prelude::*;

verus! {

/// Something that is listed by priority.
pub trait Prioritized: Sized {
    /// The priority; a smaller number comes first.
    spec fn rank(&self) -> u32;

    /// The priority; a smaller number comes first.
    fn priority(&self) -> (r: u32)
        ensures
            r == self.rank(),
    ;
}

/// No item comes before one of smaller priority number.
pub open spec fn in_rank_order<T: Prioritized>(s: Seq<T>) -> bool {
    forall|i: int, j: int| 0 <= i <= j < s.len() ==> (#[trigger] s[i]).rank() <= (#[trigger] s[j]).rank()
}

/// Having one priority.
pub open spec fn has_rank<T: Prioritized>(rank: u32) -> spec_fn(T) -> bool {
    |x: T| x.rank() == rank
}

/// The items of one priority, in the order in which they stand.
pub open spec fn of_rank<T: Prioritized>(s: Seq<T>, rank: u32) -> Seq<T> {
    s.filter(has_rank(rank))
}

/// `r` lists the items of `s` by priority, those of equal priority in the order of `s`.
pub open spec fn stably_sorted<T: Prioritized>(s: Seq<T>, r: Seq<T>) -> bool {
    &&& in_rank_order(r)
    &&& r.len() == s.len()
    &&& forall|rank: u32| #[trigger] of_rank(r, rank) == of_rank(s, rank)
}

/// The items of `s` by priority, those of equal priority in the order of `s`.
pub open spec fn by_priority<T: Prioritized>(s: Seq<T>) -> Seq<T> {
    choose|r: Seq<T>| stably_sorted(s, r)
}

/// Putting `x` in front of what is sorted, at the first place that keeps the order.
proof fn insertion_is_stable<T: Prioritized>(x: T, s: Seq<T>, r: Seq<T>, at: int)
    requires
        stably_sorted(s, r),
        0 <= at <= r.len(),
        forall|i: int| 0 <= i < at ==> (#[trigger] r[i]).rank() < x.rank(),
        at < r.len() ==> x.rank() <= r[at].rank(),
    ensures
        stably_sorted(seq![x] + s, r.insert(at, x)),
{
    let out = r.insert(at, x);
    let low = r.take(at);
    let high = r.skip(at);
    assert(r =~= low + high);
    assert(out =~= low + (seq![x] + high));
    assert forall|i: int, j: int| 0 <= i <= j < out.len() implies (#[trigger] out[i]).rank() <= (
    #[trigger] out[j]).rank() by {
        let a = if i < at { r[i] } else if i == at { x } else { r[i - 1] };
        let b = if j < at { r[j] } else if j == at { x } else { r[j - 1] };
        assert(out[i] == a && out[j] == b);
        if i <= at && at < j {
            assert(r[at].rank() <= r[j - 1].rank());
        }
    }
    assert forall|rank: u32| #[trigger] of_rank(out, rank) == of_rank(seq![x] + s, rank) by {
        let p = has_rank::<T>(rank);
        Seq::filter_distributes_over_add(low, high, p);
        Seq::filter_distributes_over_add(low, seq![x] + high, p);
        Seq::filter_distributes_over_add(seq![x], high, p);
        Seq::filter_distributes_over_add(seq![x], s, p);
        assert(of_rank(r, rank) == of_rank(s, rank));
        reveal_with_fuel(Seq::filter, 2);
        assert(seq![x].drop_last() =~= Seq::<T>::empty());
        if x.rank() == rank {
            assert(low.all(|y: T| !p(y)));
            low.lemma_all_neg_filter_empty(p);
            assert(low.filter(p) =~= Seq::<T>::empty());
            assert(of_rank(out, rank) =~= of_rank(seq![x] + s, rank));
        } else {
            assert(seq![x].filter(p) =~= Seq::<T>::empty());
            assert(of_rank(out, rank) =~= of_rank(r, rank));
            assert(of_rank(seq![x] + s, rank) =~= of_rank(s, rank));
        }
    }
}

/// Sorts `items` by priority and keeps the order of those of equal priority.
pub fn sort_by_priority<T: Prioritized>(list: Vec<T>) -> (r: Vec<T>)
    ensures
        stably_sorted(list@, r@),
        r@ == by_priority(list@),
{
    let ghost all = list@;
    let mut items = list;
    let mut out: Vec<T> = Vec::new();
    assert(all.skip(all.len() as int) =~= seq![]);
    assert(out@ =~= Seq::<T>::empty());
    loop
        invariant
            all == list@,
            items@.len() <= all.len(),
            items@ == all.take(items@.len() as int),
            stably_sorted(all.skip(items@.len() as int), out@),
        decreases items@.len(),
    {
        let ghost before = items@;
        let ghost done = all.skip(items@.len() as int);
        match items.pop() {
            None => {
                assert(all.skip(0) =~= all);
                proof {
                    stable_order_is_unique(all, out@, by_priority(all));
                }
                return out;
            },
            Some(x) => {
                let n = out.len();
                let mut at: usize = 0;
                while at < n && out[at].priority() < x.priority()
                    invariant
                        at <= n,
                        n == out@.len(),
                        forall|i: int| 0 <= i < at ==> (#[trigger] out@[i]).rank() < x.rank(),
                    decreases n - at,
                {
                    at = at + 1;
                }
                proof {
                    insertion_is_stable(x, done, out@, at as int);
                    assert(seq![x] + done =~= all.skip(before.len() - 1));
                    assert(before.drop_last() =~= all.take(before.len() - 1));
                }
                out.insert(at, x);
            },
        }
    }
}

/// A list has one stable order by priority.
pub proof fn stable_order_is_unique<T: Prioritized>(s: Seq<T>, r1: Seq<T>, r2: Seq<T>)
    requires
        stably_sorted(s, r1),
        stably_sorted(s, r2),
    ensures
        r1 == r2,
{
    assert forall|rank: u32| #[trigger] of_rank(r1, rank) == of_rank(r2, rank) by {
        assert(of_rank(r1, rank) == of_rank(s, rank));
        assert(of_rank(r2, rank) == of_rank(s, rank));
    }
    equal_ranks_equal_order(r1, r2);
}

/// Two ordered lists that hold the same items of each priority are the same.
proof fn equal_ranks_equal_order<T: Prioritized>(r1: Seq<T>, r2: Seq<T>)
    requires
        in_rank_order(r1),
        in_rank_order(r2),
        r1.len() == r2.len(),
        forall|rank: u32| #[trigger] of_rank(r1, rank) == of_rank(r2, rank),
    ensures
        r1 == r2,
    decreases r1.len(),
{
    if r1.len() == 0 {
        assert(r1 =~= r2);
    } else {
        let a = r1.last();
        let b = r2.last();
        last_rank_is_largest(r1, r2);
        last_rank_is_largest(r2, r1);
        let rank = a.rank();
        reveal(Seq::filter);
        assert(of_rank(r1, rank) == of_rank(r1.drop_last(), rank).push(a));
        assert(of_rank(r2, rank) == of_rank(r2.drop_last(), rank).push(b));
        assert(of_rank(r1, rank).last() == a && of_rank(r2, rank).last() == b);
        assert(of_rank(r1, rank) == of_rank(r2, rank));
        assert forall|q: u32| #[trigger] of_rank(r1.drop_last(), q) == of_rank(
            r2.drop_last(),
            q,
        ) by {
            assert(of_rank(r1, q) == of_rank(r2, q));
            if q == rank {
                assert(of_rank(r1.drop_last(), q) =~= of_rank(r1, q).drop_last());
                assert(of_rank(r2.drop_last(), q) =~= of_rank(r2, q).drop_last());
            }
        }
        equal_ranks_equal_order(r1.drop_last(), r2.drop_last());
        assert(r1 =~= r1.drop_last().push(a));
        assert(r2 =~= r2.drop_last().push(b));
    }
}

/// The last item of an ordered list has a priority number at least that of any item of `r1`.
proof fn last_rank_is_largest<T: Prioritized>(r1: Seq<T>, r2: Seq<T>)
    requires
        in_rank_order(r2),
        r1.len() > 0,
        r2.len() > 0,
        forall|rank: u32| #[trigger] of_rank(r1, rank) == of_rank(r2, rank),
    ensures
        r1.last().rank() <= r2.last().rank(),
{
    let rank = r1.last().rank();
    let p = has_rank::<T>(rank);
    r1.lemma_filter_contains(p, r1.len() - 1);
    assert(of_rank(r1, rank) == of_rank(r2, rank));
    assert(r2.filter(p).contains(r1[r1.len() - 1]));
    r2.lemma_filter_contains_rev(p, r1.last());
    let k = choose|k: int| 0 <= k < r2.len() && r2[k] == r1.last();
    assert(r2[k].rank() <= r2[r2.len() - 1].rank());
}

/// Every list has a stable order by priority.
pub proof fn by_priority_is_stable<T: Prioritized>(s: Seq<T>)
    ensures
        stably_sorted(s, by_priority(s)),
    decreases s.len(),
{
    if s.len() == 0 {
        assert(stably_sorted(s, s));
    } else {
        let x = s[0];
        let rest = s.skip(1);
        by_priority_is_stable(rest);
        let r = by_priority(rest);
        let at = place_for(x, r, 0);
        insertion_is_stable(x, rest, r, at);
        assert(seq![x] + rest =~= s);
        assert(stably_sorted(s, r.insert(at, x)));
    }
}

/// The first place from `from` on in `r` that does not come before `x`.
proof fn place_for<T: Prioritized>(x: T, r: Seq<T>, from: int) -> (at: int)
    requires
        0 <= from <= r.len(),
        forall|i: int| 0 <= i < from ==> (#[trigger] r[i]).rank() < x.rank(),
    ensures
        0 <= at <= r.len(),
        forall|i: int| 0 <= i < at ==> (#[trigger] r[i]).rank() < x.rank(),
        at < r.len() ==> x.rank() <= r[at].rank(),
    decreases r.len() - from,
{
    if from < r.len() && r[from].rank() < x.rank() {
        place_for(x, r, from + 1)
    } else {
        from
    }
}

/// What is in order already stays as it is.
pub proof fn ordered_list_stays<T: Prioritized>(s: Seq<T>)
    requires
        in_rank_order(s),
    ensures
        by_priority(s) == s,
{
    assert(stably_sorted(s, s));
    stable_order_is_unique(s, s, by_priority(s));
}

/// Sorting neither adds nor loses an item.
pub proof fn sorting_keeps_items<T: Prioritized>(s: Seq<T>, x: T)
    ensures
        by_priority(s).len() == s.len(),
        by_priority(s).contains(x) == s.contains(x),
{
    by_priority_is_stable(s);
    let r = by_priority(s);
    let p = has_rank::<T>(x.rank());
    assert(of_rank(r, x.rank()) == of_rank(s, x.rank()));
    if s.contains(x) {
        let i = choose|i: int| 0 <= i < s.len() && s[i] == x;
        s.lemma_filter_contains(p, i);
        r.lemma_filter_contains_rev(p, x);
    }
    if r.contains(x) {
        let i = choose|i: int| 0 <= i < r.len() && r[i] == x;
        r.lemma_filter_contains(p, i);
        s.lemma_filter_contains_rev(p, x);
    }
}

/// Sorting moves each item to one place. An item comes before another when its priority number is
/// smaller, or when the two are equal and it came first before.
pub proof fn sorting_moves_each_item_once<T: Prioritized>(s: Seq<T>)
    ensures
        exists|from: Seq<int>|
            {
                &&& #[trigger] from.len() == s.len()
                &&& by_priority(s).len() == s.len()
                &&& forall|i: int|
                    0 <= i < s.len() ==> 0 <= #[trigger] from[i] < s.len() && by_priority(s)[i]
                        == s[from[i]]
                &&& forall|i: int, j: int|
                    0 <= i < j < s.len() ==> s[#[trigger] from[i]].rank() < s[#[trigger] from[j]].rank()
                        || (s[from[i]].rank() == s[from[j]].rank() && from[i] < from[j])
            },
    decreases s.len(),
{
    if s.len() == 0 {
        by_priority_is_stable(s);
        let from = Seq::<int>::empty();
        assert(from.len() == s.len());
    } else {
        let x = s[0];
        let rest = s.skip(1);
        let r = by_priority(rest);
        by_priority_is_stable(rest);
        by_priority_is_stable(s);
        let at = place_for(x, r, 0);
        insertion_is_stable(x, rest, r, at);
        assert(seq![x] + rest =~= s);
        let out = r.insert(at, x);
        stable_order_is_unique(s, out, by_priority(s));
        sorting_moves_each_item_once(rest);
        let old = choose|from: Seq<int>|
            {
                &&& #[trigger] from.len() == rest.len()
                &&& by_priority(rest).len() == rest.len()
                &&& forall|i: int|
                    0 <= i < rest.len() ==> 0 <= #[trigger] from[i] < rest.len() && by_priority(
                        rest,
                    )[i] == rest[from[i]]
                &&& forall|i: int, j: int|
                    0 <= i < j < rest.len() ==> rest[#[trigger] from[i]].rank()
                        < rest[#[trigger] from[j]].rank() || (rest[from[i]].rank()
                        == rest[from[j]].rank() && from[i] < from[j])
            };
        let from = Seq::new(
            s.len(),
            |i: int|
                if i < at {
                    old[i] + 1
                } else if i == at {
                    0
                } else {
                    old[i - 1] + 1
                },
        );
        assert forall|i: int| 0 <= i < s.len() implies 0 <= #[trigger] from[i] < s.len() && out[i]
            == s[from[i]] by {
            if i < at {
                assert(0 <= old[i] < rest.len());
                assert(out[i] == r[i]);
                assert(rest[old[i]] == s[old[i] + 1]);
            } else if i > at {
                assert(0 <= old[i - 1] < rest.len());
                assert(out[i] == r[i - 1]);
                assert(rest[old[i - 1]] == s[old[i - 1] + 1]);
            }
        }
        assert forall|i: int, j: int| 0 <= i < j < s.len() implies s[#[trigger] from[i]].rank()
            < s[#[trigger] from[j]].rank() || (s[from[i]].rank() == s[from[j]].rank() && from[i]
            < from[j]) by {
            let p = if i < at {
                i
            } else {
                i - 1
            };
            let q = if j < at {
                j
            } else {
                j - 1
            };
            assert(out[i] == s[from[i]] && out[j] == s[from[j]]);
            if i == at {
                assert(0 <= old[q] < rest.len());
                assert(r[at].rank() <= r[q].rank());
            } else if j == at {
                assert(r[i].rank() < x.rank());
            } else {
                assert(0 <= old[p] < rest.len() && 0 <= old[q] < rest.len());
                assert(rest[old[p]] == s[old[p] + 1]);
                assert(rest[old[q]] == s[old[q] + 1]);
            }
        }
        assert(from.len() == s.len());
    }
}

} // verus!
