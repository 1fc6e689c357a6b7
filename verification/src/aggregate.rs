//! Merging scanner outputs into the canonical candidate list: sort by
//! canonical rendering, then collapse consecutive equal entries.  Because the
//! list is sorted first, the adjacent collapse achieves full deduplication,
//! and the result is a canonical form of the input: any two inputs with the
//! same multiset of artifacts aggregate to the same list.

use vstd::prelude::*;
use vstd::relations::{sorted_by, total_ordering};
use vstd::seq_lib::lemma_sorted_unique;
use crate::item::{FoundItem, ItemView, item_leq, lemma_item_leq_total_ordering,
    lemma_render_injective};
use crate::text::str_eq;

verus! {

broadcast use vstd::seq_lib::group_to_multiset_ensures;

/// The model of a list of artifacts: the sequence of their views.
pub open spec fn views_of(s: Seq<FoundItem>) -> Seq<ItemView> {
    s.map_values(|x: FoundItem| x@)
}

/// Collapses every run of consecutive equal elements to its first element.
pub open spec fn dedup_adjacent<A>(s: Seq<A>) -> Seq<A>
    decreases s.len(),
{
    if s.len() <= 1 {
        s
    } else {
        let rest = dedup_adjacent(s.drop_last());
        if s[s.len() - 1] == s[s.len() - 2] {
            rest
        } else {
            rest.push(s.last())
        }
    }
}

/// Adjacent deduplication keeps the final element of a non-empty sequence.
pub proof fn lemma_dedup_adjacent_last<A>(s: Seq<A>)
    requires
        s.len() > 0,
    ensures
        dedup_adjacent(s).len() > 0,
        dedup_adjacent(s).last() == s.last(),
    decreases s.len(),
{
    if s.len() > 1 {
        lemma_dedup_adjacent_last(s.drop_last());
    }
}

/// After adjacent deduplication no two consecutive elements are equal.
pub proof fn lemma_dedup_adjacent_distinct<A>(s: Seq<A>)
    ensures
        forall|i: int|
            0 <= i < dedup_adjacent(s).len() - 1 ==> #[trigger] dedup_adjacent(s)[i]
                != dedup_adjacent(s)[i + 1],
    decreases s.len(),
{
    if s.len() > 1 {
        lemma_dedup_adjacent_distinct(s.drop_last());
        lemma_dedup_adjacent_last(s.drop_last());
    }
}

/// Every element of an adjacent deduplication is an element of the input.
pub proof fn lemma_dedup_adjacent_elements<A>(s: Seq<A>)
    ensures
        forall|i: int| 0 <= i < dedup_adjacent(s).len() ==> s.contains(#[trigger] dedup_adjacent(
            s,
        )[i]),
    decreases s.len(),
{
    let d = dedup_adjacent(s);
    if s.len() <= 1 {
        assert forall|i: int| 0 <= i < d.len() implies s.contains(d[i]) by {
            assert(d[i] == s[i]);
        }
    } else {
        let head = s.drop_last();
        lemma_dedup_adjacent_elements(head);
        assert forall|i: int| 0 <= i < d.len() implies s.contains(d[i]) by {
            if i < dedup_adjacent(head).len() {
                let x = dedup_adjacent(head)[i];
                assert(head.contains(x));
                let j = choose|j: int| 0 <= j < head.len() && head[j] == x;
                assert(s[j] == x);
            } else {
                assert(d[i] == s.last());
                assert(s[s.len() - 1] == s.last());
            }
        }
    }
}

/// The canonical aggregate of a collection of artifacts: sorted by rendering,
/// then consecutive duplicates collapsed.  The order of the two steps is part
/// of the contract: sorting first is what makes the adjacent collapse a full
/// deduplication.
pub open spec fn aggregate_view(s: Seq<ItemView>) -> Seq<ItemView> {
    dedup_adjacent(s.sort_by(item_leq()))
}

/// Sorts artifacts by their canonical rendering.
fn sort_items(items: &Vec<FoundItem>) -> (r: Vec<FoundItem>)
    ensures
        views_of(r@) == views_of(items@).sort_by(item_leq()),
{
    let ghost leq = item_leq();
    proof {
        lemma_item_leq_total_ordering();
    }
    let mut out: Vec<FoundItem> = Vec::new();
    let n = items.len();
    let mut idx: usize = 0;
    proof {
        assert(views_of(out@) =~= Seq::<ItemView>::empty());
        assert(views_of(items@.take(0)) =~= Seq::<ItemView>::empty());
    }
    while idx < n
        invariant
            idx <= n,
            n == items@.len(),
            total_ordering(leq),
            leq == item_leq(),
            sorted_by(views_of(out@), leq),
            views_of(out@).to_multiset() == views_of(items@.take(idx as int)).to_multiset(),
        decreases n - idx,
    {
        let item = items[idx].clone();
        let item_render = item.render();
        let mut j: usize = out.len();
        while j > 0
            invariant
                j <= out@.len(),
                leq == item_leq(),
                item_render@ == crate::item::render_view(item@),
                forall|k: int| j <= k < out@.len() ==> !leq(views_of(out@)[k], item@),
            ensures
                j <= out@.len(),
                forall|k: int| j <= k < out@.len() ==> !leq(views_of(out@)[k], item@),
                j > 0 ==> leq(views_of(out@)[j - 1], item@),
            decreases j,
        {
            let prev_render = out[j - 1].render();
            if crate::text::str_lex_le(prev_render.as_str(), item_render.as_str()) {
                break;
            }
            j -= 1;
        }
        proof {
            out@.insert_ensures(j as int, item);
            assert(views_of(out@.insert(j as int, item)) =~= views_of(out@).insert(
                j as int,
                item@,
            ));
            assert forall|p: int, q: int|
                0 <= p < q < views_of(out@).insert(j as int, item@).len() implies #[trigger] leq(
                views_of(out@).insert(j as int, item@)[p],
                views_of(out@).insert(j as int, item@)[q],
            ) by {
                let s = views_of(out@);
                let t = s.insert(j as int, item@);
                s.insert_ensures(j as int, item@);
                if p < j && q == j {
                    if p < j - 1 {
                        assert(leq(s[p], s[j - 1]));
                    }
                    assert(leq(s[j - 1], item@));
                } else if p == j && q > j {
                    assert(!leq(s[q - 1], item@));
                    assert(leq(item@, s[q - 1]));
                }
            }
            assert(views_of(items@.take(idx + 1)).drop_last() =~= views_of(
                items@.take(idx as int),
            ));
            assert(views_of(items@.take(idx + 1)) =~= views_of(items@.take(idx as int)).push(
                items@[idx as int]@,
            ));
        }
        out.insert(j, item);
        idx += 1;
    }
    proof {
        assert(items@.take(n as int) =~= items@);
        let s = views_of(items@);
        s.lemma_sort_by_ensures(leq);
        lemma_sorted_unique(views_of(out@), s.sort_by(leq), leq);
    }
    out
}

/// Collapses consecutive entries with equal renderings, keeping the first.
fn dedup_items(items: Vec<FoundItem>) -> (r: Vec<FoundItem>)
    ensures
        views_of(r@) == dedup_adjacent(views_of(items@)),
{
    let mut out: Vec<FoundItem> = Vec::new();
    let n = items.len();
    let mut idx: usize = 0;
    proof {
        assert(views_of(out@) =~= Seq::<ItemView>::empty());
        assert(views_of(items@.take(0)) =~= dedup_adjacent(views_of(items@.take(0))));
    }
    while idx < n
        invariant
            idx <= n,
            n == items@.len(),
            views_of(out@) == dedup_adjacent(views_of(items@.take(idx as int))),
        decreases n - idx,
    {
        let item = items[idx].clone();
        proof {
            assert(views_of(items@.take(idx + 1)).drop_last() =~= views_of(
                items@.take(idx as int),
            ));
            assert(views_of(items@.take(idx + 1)).last() == items@[idx as int]@);
        }
        if out.len() == 0 {
            proof {
                if idx > 0 {
                    lemma_dedup_adjacent_last(views_of(items@.take(idx as int)));
                }
                assert(idx == 0);
                assert(views_of(out@.push(item)) =~= views_of(out@).push(item@));
                assert(views_of(items@.take(1)) =~= views_of(out@).push(item@));
            }
            out.push(item);
        } else {
            let prev_render = out[out.len() - 1].render();
            let item_render = item.render();
            proof {
                lemma_dedup_adjacent_last(views_of(items@.take(idx as int)));
            }
            if str_eq(prev_render.as_str(), item_render.as_str()) {
                proof {
                    assert(prev_render@ == crate::item::render_view(views_of(out@).last()));
                    lemma_render_injective(
                        views_of(items@.take(idx as int)).last(),
                        item@,
                    );
                    assert(views_of(items@.take(idx + 1))[idx as int] == views_of(
                        items@.take(idx + 1),
                    )[idx - 1]);
                    assert(dedup_adjacent(views_of(items@.take(idx + 1))) == views_of(out@));
                }
            } else {
                proof {
                    assert(views_of(items@.take(idx + 1))[idx as int] != views_of(
                        items@.take(idx + 1),
                    )[idx - 1]);
                    assert(views_of(out@.push(item)) =~= views_of(out@).push(item@));
                }
                out.push(item);
            }
        }
        idx += 1;
    }
    proof {
        assert(items@.take(n as int) =~= items@);
    }
    out
}

/// Merges scanner outputs into the canonical candidate list: sort by
/// canonical rendering, then collapse consecutive equal renderings.
pub fn aggregate(items: Vec<FoundItem>) -> (r: Vec<FoundItem>)
    ensures
        views_of(r@) == aggregate_view(views_of(items@)),
{
    let sorted = sort_items(&items);
    dedup_items(sorted)
}

/// Elements of an adjacent deduplication come from the input, and a sorted
/// input stays sorted.
pub proof fn lemma_dedup_adjacent_sorted<A>(s: Seq<A>, leq: spec_fn(A, A) -> bool)
    requires
        sorted_by(s, leq),
        total_ordering(leq),
    ensures
        forall|i: int| 0 <= i < dedup_adjacent(s).len() ==> s.contains(#[trigger] dedup_adjacent(
            s,
        )[i]),
        sorted_by(dedup_adjacent(s), leq),
    decreases s.len(),
{
    if s.len() > 1 {
        let head = s.drop_last();
        assert(sorted_by(head, leq));
        lemma_dedup_adjacent_sorted(head, leq);
        let d = dedup_adjacent(s);
        assert forall|i: int| 0 <= i < d.len() implies s.contains(#[trigger] d[i]) by {
            if i < dedup_adjacent(head).len() {
                let x = dedup_adjacent(head)[i];
                assert(head.contains(x));
                let j = choose|j: int| 0 <= j < head.len() && head[j] == x;
                assert(s[j] == x);
            } else {
                assert(d[i] == s.last());
                assert(s[s.len() - 1] == s.last());
            }
        }
        assert forall|p: int, q: int| 0 <= p < q < d.len() implies #[trigger] leq(d[p], d[q]) by {
            if q < dedup_adjacent(head).len() {
                assert(sorted_by(dedup_adjacent(head), leq));
            } else {
                assert(d[q] == s.last());
                let x = dedup_adjacent(head)[p];
                assert(head.contains(x));
                let j = choose|j: int| 0 <= j < head.len() && head[j] == x;
                assert(leq(s[j], s[s.len() - 1]));
            }
        }
    }
}

/// The canonical candidate list is sorted by rendering and holds no two
/// consecutive equal artifacts; after sorting, the adjacent collapse is a
/// full deduplication, so no two entries anywhere in it are equal.
pub proof fn lemma_aggregate_sorted_distinct(s: Seq<ItemView>)
    ensures
        sorted_by(aggregate_view(s), item_leq()),
        forall|i: int, j: int|
            0 <= i < j < aggregate_view(s).len() ==> #[trigger] aggregate_view(s)[i]
                != #[trigger] aggregate_view(s)[j],
{
    let leq = item_leq();
    lemma_item_leq_total_ordering();
    s.lemma_sort_by_ensures(leq);
    let sorted = s.sort_by(leq);
    lemma_dedup_adjacent_sorted(sorted, leq);
    lemma_dedup_adjacent_distinct(sorted);
    let d = aggregate_view(s);
    assert forall|i: int, j: int| 0 <= i < j < d.len() implies #[trigger] d[i] != #[trigger] d[j]
        by {
        if d[i] == d[j] {
            assert(leq(d[i], d[i + 1]));
            assert(leq(d[i + 1], d[j]));
            assert(leq(d[i + 1], d[i]));
            assert(d[i] == d[i + 1]);
        }
    }
}

/// Adjacent deduplication of a sequence with no two consecutive equal
/// elements changes nothing.
proof fn lemma_dedup_adjacent_of_distinct<A>(s: Seq<A>)
    requires
        forall|i: int| 0 <= i < s.len() - 1 ==> #[trigger] s[i] != s[i + 1],
    ensures
        dedup_adjacent(s) == s,
    decreases s.len(),
{
    if s.len() > 1 {
        lemma_dedup_adjacent_of_distinct(s.drop_last());
        assert(dedup_adjacent(s) =~= s);
    }
}

/// Aggregation is idempotent: the canonical list, aggregated again, is
/// itself.  A re-scan over unchanged inputs therefore reproduces the same
/// candidate list.
pub proof fn lemma_aggregate_idempotent(s: Seq<ItemView>)
    ensures
        aggregate_view(aggregate_view(s)) == aggregate_view(s),
{
    let leq = item_leq();
    lemma_item_leq_total_ordering();
    let d = aggregate_view(s);
    lemma_aggregate_sorted_distinct(s);
    d.lemma_sort_by_ensures(leq);
    lemma_sorted_unique(d.sort_by(leq), d, leq);
    lemma_dedup_adjacent_of_distinct(d);
}

/// Aggregation is deterministic and order-insensitive: any two inputs that
/// hold the same artifacts, in whatever order, aggregate to the same list.
pub proof fn lemma_aggregate_canonical(a: Seq<ItemView>, b: Seq<ItemView>)
    requires
        a.to_multiset() == b.to_multiset(),
    ensures
        aggregate_view(a) == aggregate_view(b),
{
    let leq = item_leq();
    lemma_item_leq_total_ordering();
    a.lemma_sort_by_ensures(leq);
    b.lemma_sort_by_ensures(leq);
    lemma_sorted_unique(a.sort_by(leq), b.sort_by(leq), leq);
}

} // verus!
