//! Stable sorting: which sequence a stable sort returns, and a merge sort of
//! indices that finds it.

use vstd::prelude::*;

verus! {

/// `out` holds the items of `input` at the places that `p` lists, each place
/// once, so that no item stands after one that it goes before, and items of
/// which neither goes before the other keep their order.
pub open spec fn sorts_stably_by<T>(
    input: Seq<T>,
    out: Seq<T>,
    before: spec_fn(T, T) -> bool,
    p: Seq<int>,
) -> bool {
    &&& out.len() == input.len()
    &&& p.len() == input.len()
    &&& forall|i: int| 0 <= i < p.len() ==> 0 <= #[trigger] p[i] < input.len()
    &&& forall|i: int| 0 <= i < p.len() ==> #[trigger] out[i] == input[p[i]]
    &&& forall|i: int, j: int|
        0 <= i < j < p.len() ==> stands_before(input, before, #[trigger] p[i], #[trigger] p[j])
}

/// Whether the item at place `i` comes before the item at place `j` in a stable
/// sort.
pub open spec fn stands_before<T>(
    input: Seq<T>,
    before: spec_fn(T, T) -> bool,
    i: int,
    j: int,
) -> bool {
    ||| before(input[i], input[j])
    ||| !before(input[j], input[i]) && i < j
}

/// `out` is what a stable sort of `input` returns.
pub open spec fn is_stable_sort<T>(
    input: Seq<T>,
    out: Seq<T>,
    before: spec_fn(T, T) -> bool,
) -> bool {
    exists|p: Seq<int>| sorts_stably_by(input, out, before, p)
}

/// `before` orders by a key: nothing goes before itself, and both `before` and
/// its negation carry over.
pub open spec fn is_strict_weak_order<T>(before: spec_fn(T, T) -> bool) -> bool {
    &&& forall|a: T| !#[trigger] before(a, a)
    &&& forall|a: T, b: T, c: T|
        #![trigger before(a, b), before(b, c)]
        before(a, b) && before(b, c) ==> before(a, c)
    &&& forall|a: T, b: T, c: T|
        #![trigger before(a, b), before(b, c)]
        !before(a, b) && !before(b, c) ==> !before(a, c)
}

proof fn lemma_stands_before_transitive<T>(
    input: Seq<T>,
    before: spec_fn(T, T) -> bool,
    i: int,
    j: int,
    k: int,
)
    requires
        is_strict_weak_order(before),
        stands_before(input, before, i, j),
        stands_before(input, before, j, k),
    ensures
        stands_before(input, before, i, k),
        !stands_before(input, before, j, i),
{
    let (a, b, c) = (input[i], input[j], input[k]);
    assert(before(a, b) && before(b, a) ==> before(a, a));
    assert(before(a, b) && before(b, c) ==> before(a, c));
    assert(!before(c, b) && !before(b, a) ==> !before(c, a));
    assert(!before(a, c) && !before(c, b) ==> !before(a, b));
    assert(!before(b, a) && !before(a, c) ==> !before(b, c));
}

/// Every place below the length is listed.
proof fn lemma_places_are_all_listed<T>(
    input: Seq<T>,
    out: Seq<T>,
    before: spec_fn(T, T) -> bool,
    p: Seq<int>,
    place: int,
)
    requires
        is_strict_weak_order(before),
        sorts_stably_by(input, out, before, p),
        0 <= place < input.len(),
    ensures
        p.contains(place),
{
    let all = vstd::set_lib::set_int_range(0, input.len() as int);
    vstd::set_lib::lemma_int_range(0, input.len() as int);
    assert forall|i: int, j: int| 0 <= i < j < p.len() implies p[i] != p[j] by {
        assert(stands_before(input, before, p[i], p[j]));
        assert(!before(input[p[i]], input[p[i]]));
    }
    assert(p.no_duplicates());
    p.unique_seq_to_set();
    assert(p.to_set().subset_of(all));
    vstd::set_lib::lemma_subset_equality(p.to_set(), all);
    assert(p.to_set().contains(place));
}

proof fn lemma_places_agree<T>(
    input: Seq<T>,
    a: Seq<T>,
    b: Seq<T>,
    before: spec_fn(T, T) -> bool,
    p: Seq<int>,
    q: Seq<int>,
    n: int,
)
    requires
        is_strict_weak_order(before),
        sorts_stably_by(input, a, before, p),
        sorts_stably_by(input, b, before, q),
        0 <= n <= input.len(),
    ensures
        forall|i: int| 0 <= i < n ==> #[trigger] p[i] == q[i],
    decreases n,
{
    if n > 0 {
        let m = n - 1;
        lemma_places_agree(input, a, b, before, p, q, m);
        if p[m] != q[m] {
            lemma_places_are_all_listed(input, b, before, q, p[m]);
            lemma_places_are_all_listed(input, a, before, p, q[m]);
            let j = choose|j: int| 0 <= j < q.len() && q[j] == p[m];
            let k = choose|k: int| 0 <= k < p.len() && p[k] == q[m];
            if j < m {
                assert(stands_before(input, before, p[j], p[m]));
                assert(!before(input[p[m]], input[p[m]]));
            }
            if k < m {
                assert(stands_before(input, before, q[k], q[m]));
                assert(!before(input[q[m]], input[q[m]]));
            }
            assert(stands_before(input, before, q[m], q[j]));
            assert(stands_before(input, before, p[m], p[k]));
            lemma_stands_before_transitive(input, before, p[m], q[m], p[m]);
        }
    }
}

/// There is only one stable sort of a sequence.
pub proof fn lemma_stable_sort_unique<T>(
    input: Seq<T>,
    a: Seq<T>,
    b: Seq<T>,
    before: spec_fn(T, T) -> bool,
)
    requires
        is_strict_weak_order(before),
        is_stable_sort(input, a, before),
        is_stable_sort(input, b, before),
    ensures
        a == b,
{
    let p = choose|p: Seq<int>| sorts_stably_by(input, a, before, p);
    let q = choose|q: Seq<int>| sorts_stably_by(input, b, before, q);
    lemma_places_agree(input, a, b, before, p, q, input.len() as int);
    assert forall|i: int| 0 <= i < a.len() implies a[i] == b[i] by {
        assert(p[i] == q[i]);
    }
    assert(a =~= b);
}

/// Listing the items of a sequence by places, each place once, lists the same
/// items.
proof fn lemma_listing_keeps_items<T>(input: Seq<T>, out: Seq<T>, p: Seq<int>)
    requires
        p.len() == input.len(),
        out.len() == input.len(),
        p.no_duplicates(),
        forall|i: int| 0 <= i < p.len() ==> 0 <= #[trigger] p[i] < input.len(),
        forall|i: int| 0 <= i < p.len() ==> #[trigger] out[i] == input[p[i]],
    ensures
        out.to_multiset() == input.to_multiset(),
    decreases input.len(),
{
    if input.len() == 0 {
        assert(out =~= input);
    } else {
        let n = input.len() - 1;
        let all = vstd::set_lib::set_int_range(0, input.len() as int);
        vstd::set_lib::lemma_int_range(0, input.len() as int);
        p.unique_seq_to_set();
        assert(p.to_set().subset_of(all));
        vstd::set_lib::lemma_subset_equality(p.to_set(), all);
        assert(all.contains(n));
        assert(p.to_set().contains(n));
        let k = choose|k: int| 0 <= k < p.len() && p[k] == n;
        let (p2, out2) = (p.remove(k), out.remove(k));
        assert(p2.no_duplicates());
        assert forall|i: int| 0 <= i < p2.len() implies 0 <= #[trigger] p2[i]
            < input.drop_last().len() by {
            let j = if i < k {
                i
            } else {
                i + 1
            };
            assert(p2[i] == p[j]);
            assert(p[j] != p[k]);
        }
        assert forall|i: int| 0 <= i < p2.len() implies #[trigger] out2[i]
            == input.drop_last()[p2[i]] by {
            let j = if i < k {
                i
            } else {
                i + 1
            };
            assert(out2[i] == out[j]);
            assert(p2[i] == p[j]);
            assert(p[j] != p[k]);
        }
        lemma_listing_keeps_items(input.drop_last(), out2, p2);
        broadcast use vstd::seq_lib::group_to_multiset_ensures;

        assert(out2.to_multiset() == out.to_multiset().remove(out[k]));
        assert(input.drop_last().push(input.last()) =~= input);
        assert(out.contains(out[k]));
        assert(out.to_multiset() =~= out2.to_multiset().insert(out[k]));
    }
}

/// A stable sort keeps the items, each as often as it occurs, and no item stands
/// after one that it goes before.
pub proof fn lemma_stable_sort_keeps_items<T>(
    input: Seq<T>,
    out: Seq<T>,
    before: spec_fn(T, T) -> bool,
)
    requires
        is_strict_weak_order(before),
        is_stable_sort(input, out, before),
    ensures
        out.to_multiset() == input.to_multiset(),
        forall|i: int, j: int| 0 <= i < j < out.len() ==> !before(#[trigger] out[j], #[trigger] out[i]),
{
    let p = choose|p: Seq<int>| sorts_stably_by(input, out, before, p);
    assert forall|i: int, j: int| 0 <= i < j < p.len() implies p[i] != p[j] by {
        assert(stands_before(input, before, p[i], p[j]));
        assert(!before(input[p[i]], input[p[i]]));
    }
    assert(p.no_duplicates());
    lemma_listing_keeps_items(input, out, p);
    assert forall|i: int, j: int| 0 <= i < j < out.len() implies !before(
        #[trigger] out[j],
        #[trigger] out[i],
    ) by {
        assert(out[i] == input[p[i]]);
        assert(out[j] == input[p[j]]);
        assert(stands_before(input, before, p[i], p[j]));
        if before(out[j], out[i]) && before(out[i], out[j]) {
            assert(before(out[j], out[j]));
        }
    }
}

/// Items that can be compared by their places.
pub(crate) trait Ranked {
    /// An item.
    type Item;

    /// The items in their first order.
    spec fn items(&self) -> Seq<Self::Item>;

    /// Whether one item goes before another.
    spec fn before(&self) -> spec_fn(Self::Item, Self::Item) -> bool;

    /// Whether the items are ready to be compared.
    spec fn is_ready(&self) -> bool;

    /// The order is a strict weak order.
    proof fn lemma_order(&self)
        ensures
            is_strict_weak_order(self.before()),
    ;

    /// Compares the items at two places.
    fn goes_before(&self, i: usize, j: usize) -> (r: bool)
        requires
            self.is_ready(),
            i < self.items().len(),
            j < self.items().len(),
        ensures
            r == (self.before())(self.items()[i as int], self.items()[j as int]),
    ;
}

/// The places `lo` to `hi`, in the order of a stable sort.
spec fn is_sorted_run<R: Ranked>(r: &R, run: Seq<usize>, lo: int, hi: int) -> bool {
    &&& run.len() == hi - lo
    &&& forall|a: int| 0 <= a < run.len() ==> lo <= #[trigger] run[a] < hi
    &&& forall|a: int, b: int|
        0 <= a < b < run.len() ==> stands_before(
            r.items(),
            r.before(),
            #[trigger] run[a] as int,
            #[trigger] run[b] as int,
        )
}

fn merge<R: Ranked>(
    r: &R,
    left: &Vec<usize>,
    right: &Vec<usize>,
    Ghost(lo): Ghost<int>,
    Ghost(mid): Ghost<int>,
    Ghost(hi): Ghost<int>,
) -> (out: Vec<usize>)
    requires
        r.is_ready(),
        0 <= lo <= mid <= hi <= r.items().len(),
        hi <= usize::MAX,
        is_sorted_run(r, left@, lo, mid),
        is_sorted_run(r, right@, mid, hi),
    ensures
        is_sorted_run(r, out@, lo, hi),
{
    proof {
        r.lemma_order();
    }
    let ghost items = r.items();
    let ghost before = r.before();
    let mut out: Vec<usize> = Vec::new();
    let mut a: usize = 0;
    let mut b: usize = 0;
    while a < left.len() || b < right.len()
        invariant
            r.is_ready(),
            0 <= lo <= mid <= hi <= r.items().len(),
            hi <= usize::MAX,
            items == r.items(),
            before == r.before(),
            is_strict_weak_order(before),
            is_sorted_run(r, left@, lo, mid),
            is_sorted_run(r, right@, mid, hi),
            a <= left@.len(),
            b <= right@.len(),
            out@.len() == a + b,
            forall|x: int| 0 <= x < out@.len() ==> lo <= #[trigger] out@[x] < hi,
            forall|x: int, y: int|
                0 <= x < y < out@.len() ==> stands_before(
                    items,
                    before,
                    #[trigger] out@[x] as int,
                    #[trigger] out@[y] as int,
                ),
            forall|x: int, y: int|
                0 <= x < out@.len() && a <= y < left@.len() ==> stands_before(
                    items,
                    before,
                    #[trigger] out@[x] as int,
                    #[trigger] left@[y] as int,
                ),
            forall|x: int, y: int|
                0 <= x < out@.len() && b <= y < right@.len() ==> stands_before(
                    items,
                    before,
                    #[trigger] out@[x] as int,
                    #[trigger] right@[y] as int,
                ),
        decreases left@.len() - a + right@.len() - b,
    {
        let take_left = if a == left.len() {
            false
        } else if b == right.len() {
            true
        } else {
            !r.goes_before(right[b], left[a])
        };
        if take_left {
            proof {
                assert forall|y: int| b <= y < right@.len() implies stands_before(
                    items,
                    before,
                    left@[a as int] as int,
                    #[trigger] right@[y] as int,
                ) by {
                    assert(stands_before(items, before, left@[a as int] as int, right@[b as int] as int));
                    if y > b {
                        lemma_stands_before_transitive(
                            items,
                            before,
                            left@[a as int] as int,
                            right@[b as int] as int,
                            right@[y] as int,
                        );
                    }
                }
            }
            out.push(left[a]);
            a += 1;
        } else {
            proof {
                assert forall|y: int| a <= y < left@.len() implies stands_before(
                    items,
                    before,
                    right@[b as int] as int,
                    #[trigger] left@[y] as int,
                ) by {
                    assert(stands_before(items, before, right@[b as int] as int, left@[a as int] as int));
                    if y > a {
                        lemma_stands_before_transitive(
                            items,
                            before,
                            right@[b as int] as int,
                            left@[a as int] as int,
                            left@[y] as int,
                        );
                    }
                }
            }
            out.push(right[b]);
            b += 1;
        }
    }
    out
}

fn sort_run<R: Ranked>(r: &R, lo: usize, hi: usize) -> (out: Vec<usize>)
    requires
        r.is_ready(),
        lo <= hi <= r.items().len(),
    ensures
        is_sorted_run(r, out@, lo as int, hi as int),
    decreases hi - lo,
{
    let mut out: Vec<usize> = Vec::new();
    if hi - lo == 1 {
        out.push(lo);
    } else if hi - lo > 1 {
        let mid: usize = lo + (hi - lo) / 2;
        let left = sort_run(r, lo, mid);
        let right = sort_run(r, mid, hi);
        out = merge(r, &left, &right, Ghost(lo as int), Ghost(mid as int), Ghost(hi as int));
    }
    out
}

/// A sequence at listed places.
pub(crate) open spec fn at_places<T>(input: Seq<T>, places: Seq<usize>) -> Seq<T> {
    Seq::new(places.len(), |i: int| input[places[i] as int])
}

/// The places of the items in the order of a stable sort.
pub(crate) fn sorted_places<R: Ranked>(r: &R, count: usize) -> (places: Vec<usize>)
    requires
        r.is_ready(),
        count == r.items().len(),
    ensures
        places@.len() == count,
        forall|i: int| 0 <= i < count ==> #[trigger] places@[i] < count,
        is_stable_sort(r.items(), at_places(r.items(), places@), r.before()),
{
    let places = sort_run(r, 0, count);
    proof {
        let p = places@.map_values(|i: usize| i as int);
        assert(sorts_stably_by(r.items(), at_places(r.items(), places@), r.before(), p));
    }
    places
}

} // verus!
