//! The order in which the inventory is kept: packages that were never used
//! come first, in the order in which they were found, and the others follow
//! from the one whose last use lies furthest back to the one used last.

use crate::package::{package_views, Package, PackageView};
use vstd::prelude::*;

verus! {

/// Whether the last use of `a` is no later than that of `b`. A package that
/// was never used counts as used before every other.
pub open spec fn no_later(a: PackageView, b: PackageView) -> bool {
    match (a.last_accessed, b.last_accessed) {
        (None, _) => true,
        (Some(_), None) => false,
        (Some(x), Some(y)) => x <= y,
    }
}

/// Whether `a` and `b` were last used at the same time, or both never.
pub open spec fn same_usage(a: PackageView, b: PackageView) -> bool {
    a.last_accessed == b.last_accessed
}

/// Whether `s` is in the order of the inventory: no package comes before
/// one that was used earlier.
pub open spec fn is_sorted_by_usage(s: Seq<PackageView>) -> bool {
    forall|i: int, j: int| 0 <= i < j < s.len() ==> no_later(#[trigger] s[i], #[trigger] s[j])
}

/// Whether `dst` holds the packages of `src`, each once, the package at
/// place `i` being the one that stood at place `origin[i]` of `src`.
pub open spec fn is_arrangement(
    src: Seq<PackageView>,
    dst: Seq<PackageView>,
    origin: Seq<int>,
) -> bool {
    &&& origin.len() == src.len()
    &&& dst.len() == src.len()
    &&& forall|i: int|
        0 <= i < origin.len() ==> 0 <= #[trigger] origin[i] < src.len() && dst[i] == src[origin[i]]
    &&& forall|i: int, j: int|
        0 <= i < j < origin.len() ==> #[trigger] origin[i] != #[trigger] origin[j]
}

/// Whether the arrangement keeps packages of the same usage in the order in
/// which they stood.
pub open spec fn is_stable(dst: Seq<PackageView>, origin: Seq<int>) -> bool {
    forall|i: int, j: int|
        0 <= i < j < origin.len() && same_usage(dst[i], dst[j]) ==> #[trigger] origin[i]
            < #[trigger] origin[j]
}

/// Whether `dst` is `src` put into the order of the inventory: the same
/// packages, sorted by their last use, those of the same usage in the order
/// in which they stood in `src`.
pub open spec fn is_usage_order_of(src: Seq<PackageView>, dst: Seq<PackageView>) -> bool {
    &&& is_sorted_by_usage(dst)
    &&& exists|origin: Seq<int>| #[trigger]
        is_arrangement(src, dst, origin) && is_stable(dst, origin)
}

/// Where the element at place `p` stood before the element at place `i`
/// was moved forward to place `j`.
pub open spec fn place_before_move(p: int, i: int, j: int) -> int {
    if p < j {
        p
    } else if p == j {
        i
    } else if p <= i {
        p - 1
    } else {
        p
    }
}

proof fn lemma_move<A>(s: Seq<A>, i: int, j: int)
    requires
        0 <= j <= i < s.len(),
    ensures
        s.remove(i).insert(j, s[i]).len() == s.len(),
        forall|p: int|
            0 <= p < s.len() ==> #[trigger] s.remove(i).insert(j, s[i])[p] == s[place_before_move(
                p,
                i,
                j,
            )],
{
}

/// Tells whether the last use of `a` is later than that of `b`.
pub fn is_later(a: &Package, b: &Package) -> (later: bool)
    ensures
        later == !no_later(a@, b@),
{
    match (a.accessed_at(), b.accessed_at()) {
        (None, _) => false,
        (Some(_), None) => true,
        (Some(x), Some(y)) => y.is_before(&x),
    }
}

/// Puts `items` into the order of the inventory.
pub fn sort_by_usage(items: &mut Vec<Package>)
    ensures
        is_usage_order_of(package_views(old(items)@), package_views(final(items)@)),
        final(items)@.len() == old(items)@.len(),
{
    let ghost src = package_views(items@);
    let ghost mut origin: Seq<int> = Seq::new(items@.len(), |k: int| k);
    let n = items.len();
    let mut i: usize = 0;
    while i < n
        invariant
            i <= n,
            n == items.len(),
            src.len() == n,
            is_arrangement(src, package_views(items@), origin),
            forall|p: int, q: int|
                0 <= p < q < i ==> no_later(
                    #[trigger] package_views(items@)[p],
                    #[trigger] package_views(items@)[q],
                ),
            forall|p: int, q: int|
                0 <= p < q < i && same_usage(package_views(items@)[p], package_views(items@)[q])
                    ==> #[trigger] origin[p] < #[trigger] origin[q],
            forall|p: int| 0 <= p < i ==> #[trigger] origin[p] < i,
            forall|p: int| i <= p < n ==> #[trigger] origin[p] == p,
        decreases n - i,
    {
        let ghost cur = package_views(items@);
        let mut j: usize = i;
        while j > 0 && is_later(&items[j - 1], &items[i])
            invariant
                j <= i < n,
                n == items.len(),
                cur == package_views(items@),
                forall|p: int| j <= p < i ==> !no_later(#[trigger] cur[p], cur[i as int]),
            decreases j,
        {
            j -= 1;
        }
        let ghost before = items@;
        let moved = items.remove(i);
        items.insert(j, moved);
        proof {
            let ii = i as int;
            let jj = j as int;
            let next = package_views(items@);
            let next_origin = origin.remove(ii).insert(jj, origin[ii]);
            assert(items@ == before.remove(ii).insert(jj, before[ii]));
            lemma_move(before, ii, jj);
            lemma_move(origin, ii, jj);
            assert forall|p: int| 0 <= p < n implies #[trigger] next[p] == cur[place_before_move(
                p,
                ii,
                jj,
            )] by {
                assert(items@[p] == before[place_before_move(p, ii, jj)]);
            }
            assert forall|p: int| 0 <= p < n implies #[trigger] next_origin[p]
                == origin[place_before_move(p, ii, jj)] by {}
            assert(is_arrangement(src, next, next_origin)) by {
                assert forall|p: int| 0 <= p < next_origin.len() implies 0
                    <= #[trigger] next_origin[p] < src.len() && next[p] == src[next_origin[p]] by {
                    let b = place_before_move(p, ii, jj);
                    assert(next_origin[p] == origin[b]);
                }
                assert forall|p: int, q: int| 0 <= p < q < next_origin.len() implies
                    #[trigger] next_origin[p] != #[trigger] next_origin[q] by {
                    let a = place_before_move(p, ii, jj);
                    let b = place_before_move(q, ii, jj);
                    assert(a != b);
                    if a < b {
                        assert(origin[a] != origin[b]);
                    } else {
                        assert(origin[b] != origin[a]);
                    }
                }
            }
            assert forall|p: int, q: int| 0 <= p < q < i + 1 implies no_later(
                #[trigger] next[p],
                #[trigger] next[q],
            ) by {
                let a = place_before_move(p, ii, jj);
                let b = place_before_move(q, ii, jj);
                if q == jj {
                    // what stands before the place of the moved element
                    assert(no_later(cur[jj - 1], cur[ii]));
                    if p < jj - 1 {
                        assert(no_later(cur[p], cur[jj - 1]));
                    }
                } else if p == jj {
                    assert(!no_later(cur[b], cur[ii]));
                } else {
                    assert(no_later(cur[a], cur[b]));
                }
            }
            assert forall|p: int, q: int|
                0 <= p < q < i + 1 && same_usage(next[p], next[q]) implies #[trigger] next_origin[p]
                < #[trigger] next_origin[q] by {
                let a = place_before_move(p, ii, jj);
                let b = place_before_move(q, ii, jj);
                if q == jj {
                    assert(origin[a] < ii);
                    assert(origin[ii] == ii);
                } else if p == jj {
                    assert(!no_later(cur[b], cur[ii]));
                } else {
                    assert(origin[a] < origin[b]);
                }
            }
            assert forall|p: int| 0 <= p < i + 1 implies #[trigger] next_origin[p] < i + 1 by {
                let a = place_before_move(p, ii, jj);
                if a < ii {
                    assert(origin[a] < ii);
                } else {
                    assert(origin[a] == a);
                }
            }
            assert forall|p: int| i + 1 <= p < n implies #[trigger] next_origin[p] == p by {
                assert(origin[p] == p);
            }
            origin = next_origin;
        }
        i += 1;
    }
    proof {
        let sorted = package_views(items@);
        assert(is_arrangement(src, sorted, origin) && is_stable(sorted, origin));
    }
}

proof fn lemma_origin_covers(origin: Seq<int>, wanted: int)
    requires
        forall|i: int| 0 <= i < origin.len() ==> 0 <= #[trigger] origin[i] < origin.len(),
        forall|i: int, j: int|
            0 <= i < j < origin.len() ==> #[trigger] origin[i] != #[trigger] origin[j],
        0 <= wanted < origin.len(),
    ensures
        exists|p: int| 0 <= p < origin.len() && origin[p] == wanted,
{
    broadcast use vstd::seq_lib::seq_to_set_is_finite;

    let n = origin.len() as int;
    let range = vstd::set_lib::set_int_range(0, n);
    assert(origin.no_duplicates()) by {
        assert forall|i: int, j: int|
            0 <= i < origin.len() && 0 <= j < origin.len() && i != j implies origin[i]
            != origin[j] by {
            if i < j {
                assert(origin[i] != origin[j]);
            } else {
                assert(origin[j] != origin[i]);
            }
        }
    }
    origin.unique_seq_to_set();
    vstd::set_lib::lemma_int_range(0, n);
    assert(origin.to_set().subset_of(range)) by {
        assert forall|v: int| origin.to_set().contains(v) implies range.contains(v) by {
            let p = choose|p: int| 0 <= p < origin.len() && origin[p] == v;
            assert(0 <= origin[p] < n);
        }
    }
    vstd::set_lib::lemma_subset_equality(origin.to_set(), range);
    assert(range.contains(wanted));
    assert(origin.to_set().contains(wanted));
    assert(origin.contains(wanted));
}

proof fn lemma_same_origins(
    src: Seq<PackageView>,
    a: Seq<PackageView>,
    origin_a: Seq<int>,
    b: Seq<PackageView>,
    origin_b: Seq<int>,
    upto: int,
)
    requires
        is_sorted_by_usage(a),
        is_sorted_by_usage(b),
        is_arrangement(src, a, origin_a),
        is_arrangement(src, b, origin_b),
        is_stable(a, origin_a),
        is_stable(b, origin_b),
        0 <= upto <= src.len(),
    ensures
        forall|i: int| 0 <= i < upto ==> origin_a[i] == origin_b[i],
    decreases upto,
{
    if upto > 0 {
        lemma_same_origins(src, a, origin_a, b, origin_b, upto - 1);
        let i = upto - 1;
        let x = origin_a[i];
        let y = origin_b[i];
        if x != y {
            lemma_origin_covers(origin_b, x);
            lemma_origin_covers(origin_a, y);
            let p = choose|p: int| 0 <= p < origin_b.len() && origin_b[p] == x;
            let q = choose|q: int| 0 <= q < origin_a.len() && origin_a[q] == y;
            if p < i {
                assert(origin_a[p] == origin_b[p]);
                assert(origin_a[p] != origin_a[i]);
            }
            if q < i {
                assert(origin_a[q] == origin_b[q]);
                assert(origin_b[q] != origin_b[i]);
            }
            assert(i < p && i < q);
            assert(no_later(b[i], b[p]));
            assert(no_later(a[i], a[q]));
            assert(b[i] == src[y] && b[p] == src[x]);
            assert(a[i] == src[x] && a[q] == src[y]);
            assert(same_usage(src[x], src[y]));
            assert(origin_b[i] < origin_b[p]);
            assert(origin_a[i] < origin_a[q]);
        }
    }
}

/// The order of the inventory is one: two sequences that are both `src` put
/// into that order are the same sequence.
pub proof fn lemma_usage_order_is_unique(
    src: Seq<PackageView>,
    a: Seq<PackageView>,
    b: Seq<PackageView>,
)
    requires
        is_usage_order_of(src, a),
        is_usage_order_of(src, b),
    ensures
        a == b,
{
    let origin_a = choose|origin: Seq<int>| #[trigger]
        is_arrangement(src, a, origin) && is_stable(a, origin);
    let origin_b = choose|origin: Seq<int>| #[trigger]
        is_arrangement(src, b, origin) && is_stable(b, origin);
    lemma_same_origins(src, a, origin_a, b, origin_b, src.len() as int);
    assert forall|i: int| 0 <= i < a.len() implies a[i] == b[i] by {
        assert(origin_a[i] == origin_b[i]);
    }
    assert(a =~= b);
}

/// Sorting is idempotent: an inventory that is in order already comes out
/// of sorting as the sequence that it was.
pub proof fn lemma_sorted_stays_as_it_is(s: Seq<PackageView>, sorted: Seq<PackageView>)
    requires
        is_sorted_by_usage(s),
        is_usage_order_of(s, sorted),
    ensures
        sorted == s,
{
    let identity = Seq::new(s.len(), |k: int| k);
    assert(is_arrangement(s, s, identity) && is_stable(s, identity));
    lemma_usage_order_is_unique(s, s, sorted);
}

/// In a sorted inventory a package that was never used never stands
/// directly behind one that was.
pub proof fn lemma_never_used_come_first(s: Seq<PackageView>, i: int)
    requires
        is_sorted_by_usage(s),
        0 <= i,
        i + 1 < s.len(),
    ensures
        !(s[i].last_accessed is Some && s[i + 1].last_accessed is None),
{
    assert(no_later(s[i], s[i + 1]));
}

/// Taking a package out of the inventory and sorting what is left gives an
/// inventory that is shorter by one, and in which no package goes by the
/// name of the one taken out, provided that no other went by it before.
pub proof fn lemma_removed_package_is_gone(
    items: Seq<PackageView>,
    index: int,
    rest: Seq<PackageView>,
)
    requires
        0 <= index < items.len(),
        forall|k: int|
            0 <= k < items.len() && k != index ==> (#[trigger] items[k]).name != items[index].name,
        is_usage_order_of(items.remove(index), rest),
    ensures
        rest.len() == items.len() - 1,
        forall|k: int| 0 <= k < rest.len() ==> (#[trigger] rest[k]).name != items[index].name,
{
    let left = items.remove(index);
    let origin = choose|origin: Seq<int>| #[trigger]
        is_arrangement(left, rest, origin) && is_stable(rest, origin);
    assert forall|k: int| 0 <= k < rest.len() implies (#[trigger] rest[k]).name
        != items[index].name by {
        let from = origin[k];
        assert(rest[k] == left[from]);
        if from < index {
            assert(left[from] == items[from]);
        } else {
            assert(left[from] == items[from + 1]);
        }
    }
}

} // verus!
