//! What holds of every start-up recovery and every scheduler pass.

use crate::item::{ItemView, UpdateView};
use crate::recovery::{
    insert_ordered, ordered, precedes, recovered, scheduled_submissions, startup_submissions,
    taken, takes,
};
use crate::status::DownloadStatus;
use vstd::prelude::*;

verus! {

/// No item of `s` comes behind one that it precedes.
pub open spec fn in_serving_order(s: Seq<ItemView>, by_priority: bool) -> bool {
    forall|i: int, j: int| 0 <= i < j < s.len() ==> !precedes(s[j], s[i], by_priority)
}

/// Where [`insert_ordered`] puts the new item.
spec fn insert_position(s: Seq<ItemView>, x: ItemView, by_priority: bool) -> int
    decreases s.len(),
{
    if s.len() == 0 {
        0
    } else if precedes(x, s.last(), by_priority) {
        insert_position(s.drop_last(), x, by_priority)
    } else {
        s.len() as int
    }
}

proof fn lemma_insert_position(s: Seq<ItemView>, x: ItemView, by_priority: bool)
    ensures
        ({
            let j = insert_position(s, x, by_priority);
            &&& 0 <= j <= s.len()
            &&& insert_ordered(s, x, by_priority) == s.insert(j, x)
            &&& forall|k: int| j <= k < s.len() ==> precedes(x, #[trigger] s[k], by_priority)
            &&& j > 0 ==> !precedes(x, s[j - 1], by_priority)
        }),
    decreases s.len(),
{
    if s.len() == 0 {
        assert(s.insert(0, x) =~= seq![x]);
    } else if precedes(x, s.last(), by_priority) {
        lemma_insert_position(s.drop_last(), x, by_priority);
        let j = insert_position(s.drop_last(), x, by_priority);
        assert(s.drop_last().insert(j, x).push(s.last()) =~= s.insert(j, x));
        assert forall|k: int| j <= k < s.len() implies precedes(
            x,
            #[trigger] s[k],
            by_priority,
        ) by {
            if k < s.len() - 1 {
                assert(s.drop_last()[k] == s[k]);
            }
        }
        if j > 0 {
            assert(s.drop_last()[j - 1] == s[j - 1]);
        }
    } else {
        assert(s.insert(s.len() as int, x) =~= s.push(x));
    }
}

proof fn lemma_insert_keeps_order(s: Seq<ItemView>, x: ItemView, by_priority: bool)
    requires
        in_serving_order(s, by_priority),
    ensures
        in_serving_order(insert_ordered(s, x, by_priority), by_priority),
        insert_ordered(s, x, by_priority).to_multiset() == s.to_multiset().insert(x),
        insert_ordered(s, x, by_priority).len() == s.len() + 1,
{
    lemma_insert_position(s, x, by_priority);
    let j = insert_position(s, x, by_priority);
    let r = s.insert(j, x);
    assert forall|a: int, b: int| 0 <= a < b < r.len() implies !precedes(
        r[b],
        r[a],
        by_priority,
    ) by {
        if b == j {
            // r[b] is x: x does not precede what stands before it
            if j > 0 {
                assert(!precedes(x, s[j - 1], by_priority));
                assert(a <= j - 1);
                if a < j - 1 {
                    assert(!precedes(s[j - 1], s[a], by_priority));
                }
            }
        } else if a == j {
            assert(precedes(x, s[b - 1], by_priority));
        } else {
            let a0 = if a < j { a } else { a - 1 };
            let b0 = if b < j { b } else { b - 1 };
            assert(r[a] == s[a0] && r[b] == s[b0]);
        }
    }
    assert(r.remove(j) =~= s);
    r.to_multiset_ensures();
    assert(r.remove(j).to_multiset() =~= r.to_multiset().remove(x));
    assert(r.contains(x)) by {
        assert(r[j] == x);
    }
    assert(r.to_multiset() =~= s.to_multiset().insert(x));
}

/// The serving order holds the same items as the input, each as often, and
/// none of them stands behind one that it precedes.
pub proof fn lemma_ordered_is_sorted_permutation(s: Seq<ItemView>, by_priority: bool)
    ensures
        in_serving_order(ordered(s, by_priority), by_priority),
        ordered(s, by_priority).to_multiset() == s.to_multiset(),
        ordered(s, by_priority).len() == s.len(),
    decreases s.len(),
{
    if s.len() == 0 {
        assert(ordered(s, by_priority) =~= s);
    } else {
        lemma_ordered_is_sorted_permutation(s.drop_last(), by_priority);
        lemma_insert_keeps_order(ordered(s.drop_last(), by_priority), s.last(), by_priority);
        s.drop_last().to_multiset_ensures();
        assert(s.drop_last().push(s.last()) =~= s);
    }
}

/// The serving order holds an item exactly if the input does.
pub proof fn lemma_ordered_contains(s: Seq<ItemView>, by_priority: bool, x: ItemView)
    ensures
        ordered(s, by_priority).contains(x) <==> s.contains(x),
{
    lemma_ordered_is_sorted_permutation(s, by_priority);
    s.to_multiset_ensures();
    ordered(s, by_priority).to_multiset_ensures();
    assert(s.to_multiset().count(x) == ordered(s, by_priority).to_multiset().count(x));
}

/// A pass takes exactly the items of the table that meet its condition.
pub proof fn lemma_taken_contains(items: Seq<ItemView>, now: i64, due_only: bool, x: ItemView)
    ensures
        taken(items, now, due_only).contains(x) <==> items.contains(x) && takes(x, now, due_only),
    decreases items.len(),
{
    if items.len() > 0 {
        let rest = items.drop_last();
        lemma_taken_contains(rest, now, due_only, x);
        let t = taken(rest, now, due_only);
        if takes(items.last(), now, due_only) {
            let all = t.push(items.last());
            if all.contains(x) {
                let k = choose|k: int| 0 <= k < all.len() && all[k] == x;
                if k < t.len() {
                    assert(t[k] == x);
                    assert(t.contains(x));
                }
            }
            if t.contains(x) {
                let k = choose|k: int| 0 <= k < t.len() && t[k] == x;
                assert(all[k] == x);
            }
            if x == items.last() {
                assert(all[t.len() as int] == x);
            }
        }
        if items.contains(x) {
            let k = choose|k: int| 0 <= k < items.len() && items[k] == x;
            if k < rest.len() {
                assert(rest[k] == x);
            }
        }
        if rest.contains(x) {
            let k = choose|k: int| 0 <= k < rest.len() && rest[k] == x;
            assert(items[k] == x);
        }
        assert(items[items.len() - 1] == items.last());
    }
}

/// Start-up recovery submits ready items only, and a scheduler pass due items
/// only: each submitted id is that of such an item of the table.
pub proof fn lemma_submissions_are_eligible(items: Seq<ItemView>, now: i64, k: int)
    ensures
        0 <= k < startup_submissions(items, now).len() ==> exists|j: int|
            0 <= j < items.len() && (#[trigger] items[j]).id == startup_submissions(items, now)[k]
                && items[j].apply(UpdateView::Reset).is_ready(now),
        0 <= k < scheduled_submissions(items, now).len() ==> exists|j: int|
            0 <= j < items.len() && (#[trigger] items[j]).id == scheduled_submissions(
                items,
                now,
            )[k] && items[j].is_due(now),
{
    if 0 <= k < startup_submissions(items, now).len() {
        let t = taken(recovered(items), now, false);
        let y = ordered(t, false)[k];
        assert(ordered(t, false).contains(y));
        lemma_ordered_contains(t, false, y);
        lemma_taken_contains(recovered(items), now, false, y);
        let j = choose|j: int| 0 <= j < recovered(items).len() && recovered(items)[j] == y;
        assert(items[j].id == y.id);
    }
    if 0 <= k < scheduled_submissions(items, now).len() {
        let t = taken(items, now, true);
        let y = ordered(t, true)[k];
        assert(ordered(t, true).contains(y));
        lemma_ordered_contains(t, true, y);
        lemma_taken_contains(items, now, true, y);
        let j = choose|j: int| 0 <= j < items.len() && items[j] == y;
        assert(items[j].id == y.id);
    }
}

/// A queued item that is scheduled for a time after start-up is not submitted
/// by start-up recovery, and is submitted by every scheduler pass from its
/// scheduled time on, for as long as it stays queued.
pub proof fn lemma_scheduled_item_waits(
    items: Seq<ItemView>,
    i: int,
    at: i64,
    startup: i64,
    later: i64,
)
    requires
        0 <= i < items.len(),
        forall|a: int, b: int| 0 <= a < b < items.len() ==> items[a].id != items[b].id,
        items[i].status == DownloadStatus::Queued,
        items[i].scheduled_at == Some(at),
        startup < at <= later,
    ensures
        !startup_submissions(items, startup).contains(items[i].id),
        !scheduled_submissions(items, startup).contains(items[i].id),
        scheduled_submissions(items, later).contains(items[i].id),
{
    let id = items[i].id;
    if startup_submissions(items, startup).contains(id) {
        let k = choose|k: int|
            0 <= k < startup_submissions(items, startup).len() && startup_submissions(
                items,
                startup,
            )[k] == id;
        lemma_submissions_are_eligible(items, startup, k);
        let j = choose|j: int|
            0 <= j < items.len() && (#[trigger] items[j]).id == startup_submissions(
                items,
                startup,
            )[k] && items[j].apply(UpdateView::Reset).is_ready(startup);
        assert(j == i);
    }
    if scheduled_submissions(items, startup).contains(id) {
        let k = choose|k: int|
            0 <= k < scheduled_submissions(items, startup).len() && scheduled_submissions(
                items,
                startup,
            )[k] == id;
        lemma_submissions_are_eligible(items, startup, k);
        let j = choose|j: int|
            0 <= j < items.len() && (#[trigger] items[j]).id == scheduled_submissions(
                items,
                startup,
            )[k] && items[j].is_due(startup);
        assert(j == i);
    }
    let t = taken(items, later, true);
    assert(items.contains(items[i]));
    lemma_taken_contains(items, later, true, items[i]);
    lemma_ordered_contains(t, true, items[i]);
    let o = ordered(t, true);
    let k = choose|k: int| 0 <= k < o.len() && o[k] == items[i];
    assert(scheduled_submissions(items, later)[k] == id);
}

} // verus!
