//! Start-up recovery and the scheduler's periodic pass: which writes to make
//! and which ids to hand to the worker pool, and in what order.

use crate::event::{EventView, WsEvent};
use crate::item::{ItemView, QueueItem, Update, UpdateView};
use crate::progress::Progress;
use crate::status::DownloadStatus;
use crate::text::texts;
use vstd::prelude::*;

verus! {

/// Seconds between two passes of the scheduler.
pub const SCHEDULER_SECONDS: u64 = 60;

/// Whether `a` is served strictly before `b`: by insertion time, and where
/// `by_priority` is set by priority first (lower first).
pub open spec fn precedes(a: ItemView, b: ItemView, by_priority: bool) -> bool {
    if by_priority && a.priority != b.priority {
        a.priority < b.priority
    } else {
        a.added_at < b.added_at
    }
}

/// `s` with `x` put behind every element that it does not precede.
pub open spec fn insert_ordered(s: Seq<ItemView>, x: ItemView, by_priority: bool) -> Seq<ItemView>
    decreases s.len(),
{
    if s.len() == 0 {
        seq![x]
    } else if precedes(x, s.last(), by_priority) {
        insert_ordered(s.drop_last(), x, by_priority).push(s.last())
    } else {
        s.push(x)
    }
}

/// The items of `s` in serving order; items that neither precedes the other
/// keep the order in which `s` has them.
pub open spec fn ordered(s: Seq<ItemView>, by_priority: bool) -> Seq<ItemView>
    decreases s.len(),
{
    if s.len() == 0 {
        Seq::empty()
    } else {
        insert_ordered(ordered(s.drop_last(), by_priority), s.last(), by_priority)
    }
}

/// Whether the pass takes the item: start-up recovery takes what is ready,
/// the scheduler what was scheduled and is due.
pub open spec fn takes(item: ItemView, now: i64, due_only: bool) -> bool {
    if due_only {
        item.is_due(now)
    } else {
        item.is_ready(now)
    }
}

/// The items that the pass takes, in the order of `items`.
pub open spec fn taken(items: Seq<ItemView>, now: i64, due_only: bool) -> Seq<ItemView>
    decreases items.len(),
{
    if items.len() == 0 {
        Seq::empty()
    } else if takes(items.last(), now, due_only) {
        taken(items.drop_last(), now, due_only).push(items.last())
    } else {
        taken(items.drop_last(), now, due_only)
    }
}

/// The table after every interrupted run has been reset.
pub open spec fn recovered(items: Seq<ItemView>) -> Seq<ItemView> {
    items.map_values(|i: ItemView| i.apply(UpdateView::Reset))
}

/// The ids of the interrupted runs, in the order of `items`.
pub open spec fn interrupted(items: Seq<ItemView>) -> Seq<Seq<char>>
    decreases items.len(),
{
    if items.len() == 0 {
        Seq::empty()
    } else if items.last().status == DownloadStatus::Downloading {
        interrupted(items.drop_last()).push(items.last().id)
    } else {
        interrupted(items.drop_last())
    }
}

/// The ids that start-up recovery submits: what is ready once the interrupted
/// runs are reset, by insertion time.
pub open spec fn startup_submissions(items: Seq<ItemView>, now: i64) -> Seq<Seq<char>> {
    ordered(taken(recovered(items), now, false), false).map_values(|i: ItemView| i.id)
}

/// The ids that a scheduler pass submits: what was scheduled and is due, by
/// priority and then insertion time.
pub open spec fn scheduled_submissions(items: Seq<ItemView>, now: i64) -> Seq<Seq<char>> {
    ordered(taken(items, now, true), true).map_values(|i: ItemView| i.id)
}

/// The views of a table's rows.
pub open spec fn rows(items: Seq<QueueItem>) -> Seq<ItemView> {
    items.map_values(|i: QueueItem| i@)
}

/// The views of a list of events.
pub open spec fn events_view(events: Seq<WsEvent>) -> Seq<EventView> {
    events.map_values(|e: WsEvent| e@)
}

/// What start-up recovery did to the table and what is left for the caller:
/// the events to publish, then the ids to submit.
#[derive(Clone, Debug)]
pub struct Recovery {
    /// The ids of the runs that were reset, in table order.
    pub resets: Vec<String>,
    /// One `StatusChange` to `queued` for each reset, in the same order.
    pub events: Vec<WsEvent>,
    /// The ids to hand to the worker pool, in order.
    pub submissions: Vec<String>,
}

fn precedes_exec(a: &QueueItem, b: &QueueItem, by_priority: bool) -> (r: bool)
    ensures
        r == precedes(a@, b@, by_priority),
{
    if by_priority && a.priority != b.priority {
        a.priority < b.priority
    } else {
        a.added_at < b.added_at
    }
}

/// Putting `x` at position `j` is what [`insert_ordered`] does, where `x`
/// precedes everything from `j` on and not the element before `j`.
proof fn lemma_insert_at(s: Seq<ItemView>, x: ItemView, by_priority: bool, j: int)
    requires
        0 <= j <= s.len(),
        forall|k: int| j <= k < s.len() ==> precedes(x, #[trigger] s[k], by_priority),
        j > 0 ==> !precedes(x, s[j - 1], by_priority),
    ensures
        insert_ordered(s, x, by_priority) == s.insert(j, x),
    decreases s.len(),
{
    if s.len() == 0 {
        assert(s.insert(j, x) =~= seq![x]);
    } else if j == s.len() {
        assert(s.insert(j, x) =~= s.push(x));
    } else {
        lemma_insert_at(s.drop_last(), x, by_priority, j);
        assert(s.drop_last().insert(j, x).push(s.last()) =~= s.insert(j, x));
    }
}

/// The positions in `items` of what the pass takes, in serving order.
fn select(items: &Vec<QueueItem>, now: i64, due_only: bool, by_priority: bool) -> (out: Vec<usize>)
    ensures
        out@.len() == taken(rows(items@), now, due_only).len(),
        forall|k: int| 0 <= k < out@.len() ==> out@[k] < items.len(),
        out@.map_values(|i: usize| items@[i as int]@) == ordered(
            taken(rows(items@), now, due_only),
            by_priority,
        ),
{
    let mut out: Vec<usize> = Vec::new();
    let mut i: usize = 0;
    assert(rows(items@).take(0) =~= Seq::empty());
    assert(out@.map_values(|i: usize| items@[i as int]@) =~= Seq::empty());
    while i < items.len()
        invariant
            i <= items.len(),
            out@.len() == taken(rows(items@).take(i as int), now, due_only).len(),
            forall|k: int| 0 <= k < out@.len() ==> out@[k] < items.len(),
            out@.map_values(|i: usize| items@[i as int]@) == ordered(
                taken(rows(items@).take(i as int), now, due_only),
                by_priority,
            ),
        decreases items.len() - i,
    {
        let ghost all = rows(items@);
        assert(all.take(i + 1).drop_last() =~= all.take(i as int));
        assert(all.take(i + 1).last() == items@[i as int]@);
        let take_it = if due_only {
            items[i].due_at(now)
        } else {
            items[i].ready_at(now)
        };
        if take_it {
            let ghost before = out@.map_values(|i: usize| items@[i as int]@);
            let mut j: usize = out.len();
            while j > 0 && precedes_exec(&items[i], &items[out[j - 1]], by_priority)
                invariant
                    j <= out.len(),
                    i < items.len(),
                    before == out@.map_values(|i: usize| items@[i as int]@),
                    forall|k: int| 0 <= k < out@.len() ==> out@[k] < items.len(),
                    forall|k: int|
                        j <= k < before.len() ==> precedes(
                            items@[i as int]@,
                            #[trigger] before[k],
                            by_priority,
                        ),
                decreases j,
            {
                j -= 1;
            }
            proof {
                let x = items@[i as int]@;
                let shorter = taken(all.take(i as int), now, due_only);
                lemma_insert_at(before, x, by_priority, j as int);
                assert(taken(all.take(i + 1), now, due_only) == shorter.push(x));
                assert(shorter.push(x).drop_last() =~= shorter);
                assert(ordered(shorter.push(x), by_priority) == insert_ordered(
                    ordered(shorter, by_priority),
                    x,
                    by_priority,
                ));
            }
            out.insert(j, i);
            assert(out@.map_values(|i: usize| items@[i as int]@) =~= before.insert(
                j as int,
                items@[i as int]@,
            ));
        }
        i += 1;
    }
    assert(rows(items@).take(i as int) =~= rows(items@));
    out
}

fn ids_at(items: &Vec<QueueItem>, picked: &Vec<usize>) -> (ids: Vec<String>)
    requires
        forall|k: int| 0 <= k < picked@.len() ==> picked@[k] < items.len(),
    ensures
        texts(ids@) == picked@.map_values(|i: usize| items@[i as int]@).map_values(
            |i: ItemView| i.id,
        ),
{
    let mut ids: Vec<String> = Vec::new();
    let mut k: usize = 0;
    while k < picked.len()
        invariant
            k <= picked.len(),
            forall|k: int| 0 <= k < picked@.len() ==> picked@[k] < items.len(),
            ids@.len() == k,
            forall|m: int| 0 <= m < k ==> (#[trigger] ids@[m])@ == items@[picked@[m] as int].id@,
        decreases picked.len() - k,
    {
        ids.push(items[picked[k]].id.clone());
        k += 1;
    }
    assert(texts(ids@) =~= picked@.map_values(|i: usize| items@[i as int]@).map_values(
        |i: ItemView| i.id,
    ));
    ids
}

/// Start-up recovery on a table: resets every interrupted run to `queued`,
/// and returns the events to publish and the ids to submit.
pub fn requeue_interrupted(items: &mut Vec<QueueItem>, now: i64) -> (plan: Recovery)
    ensures
        rows(final(items)@) == recovered(rows(old(items)@)),
        texts(plan.resets@) == interrupted(rows(old(items)@)),
        events_view(plan.events@) == interrupted(rows(old(items)@)).map_values(
            |id: Seq<char>| EventView::StatusChange { id, status: DownloadStatus::Queued },
        ),
        texts(plan.submissions@) == startup_submissions(rows(old(items)@), now),
        forall|i: int|
            0 <= i < old(items)@.len() && old(items)@[i].status == DownloadStatus::Downloading ==> {
                &&& (#[trigger] final(items)@[i]).status == DownloadStatus::Queued
                &&& final(items)@[i].started_at.is_none()
                &&& final(items)@[i].progress == Progress::zero_spec()
            },
{
    let mut resets: Vec<String> = Vec::new();
    let mut events: Vec<WsEvent> = Vec::new();
    let reset = Update::Reset;
    let mut i: usize = 0;
    let ghost before = rows(items@);
    assert(before.take(0) =~= Seq::empty());
    assert(texts(resets@) =~= Seq::empty());
    assert(events_view(events@) =~= Seq::empty());
    while i < items.len()
        invariant
            i <= items.len(),
            items.len() == before.len(),
            before == rows(old(items)@),
            reset@ == UpdateView::Reset,
            forall|j: int| 0 <= j < i ==> (#[trigger] items@[j])@ == before[j].apply(UpdateView::Reset),
            forall|j: int| i <= j < items.len() ==> (#[trigger] items@[j])@ == before[j],
            texts(resets@) == interrupted(before.take(i as int)),
            events_view(events@) == interrupted(before.take(i as int)).map_values(
                |id: Seq<char>| EventView::StatusChange { id, status: DownloadStatus::Queued },
            ),
        decreases items.len() - i,
    {
        assert(before.take(i + 1).drop_last() =~= before.take(i as int));
        assert(before.take(i + 1).last() == before[i as int]);
        if items[i].status == DownloadStatus::Downloading {
            let id = items[i].id.clone();
            let ghost old_resets = texts(resets@);
            let ghost old_events = events_view(events@);
            resets.push(id.clone());
            events.push(WsEvent::StatusChange { id, status: DownloadStatus::Queued });
            assert(texts(resets@) =~= old_resets.push(before[i as int].id));
            assert(events_view(events@) =~= old_events.push(
                EventView::StatusChange { id: before[i as int].id, status: DownloadStatus::Queued },
            ));
            assert(interrupted(before.take(i + 1)).map_values(
                |id: Seq<char>| EventView::StatusChange { id, status: DownloadStatus::Queued },
            ) =~= old_events.push(
                EventView::StatusChange { id: before[i as int].id, status: DownloadStatus::Queued },
            ));
        }
        items[i].apply(&reset);
        i += 1;
    }
    assert(before.take(i as int) =~= before);
    assert(rows(items@) =~= recovered(before));
    let picked = select(items, now, false, false);
    let submissions = ids_at(items, &picked);
    Recovery { resets, events, submissions }
}

/// The ids of the interrupted runs, in table order: the rows that start-up
/// recovery has to reset.
pub fn interrupted_ids(items: &Vec<QueueItem>) -> (ids: Vec<String>)
    ensures
        texts(ids@) == interrupted(rows(items@)),
{
    let mut ids: Vec<String> = Vec::new();
    let mut i: usize = 0;
    let ghost all = rows(items@);
    assert(all.take(0) =~= Seq::empty());
    assert(texts(ids@) =~= Seq::empty());
    while i < items.len()
        invariant
            i <= items.len(),
            all == rows(items@),
            texts(ids@) == interrupted(all.take(i as int)),
        decreases items.len() - i,
    {
        assert(all.take(i + 1).drop_last() =~= all.take(i as int));
        assert(all.take(i + 1).last() == items@[i as int]@);
        if items[i].status == DownloadStatus::Downloading {
            let ghost old_ids = texts(ids@);
            ids.push(items[i].id.clone());
            assert(texts(ids@) =~= old_ids.push(items@[i as int]@.id));
        }
        i += 1;
    }
    assert(all.take(i as int) =~= all);
    ids
}

/// The ids that start-up recovery submits from a table in which no run is
/// left to reset: what is ready at `now`, by insertion time.
pub fn ready_ids(items: &Vec<QueueItem>, now: i64) -> (ids: Vec<String>)
    ensures
        texts(ids@) == ordered(taken(rows(items@), now, false), false).map_values(
            |i: ItemView| i.id,
        ),
{
    let picked = select(items, now, false, false);
    ids_at(items, &picked)
}

/// One scheduler pass: the ids of the queued items whose scheduled time has
/// come, by priority and then insertion time.
pub fn enqueue_scheduled(items: &Vec<QueueItem>, now: i64) -> (ids: Vec<String>)
    ensures
        texts(ids@) == scheduled_submissions(rows(items@), now),
{
    let picked = select(items, now, true, true);
    ids_at(items, &picked)
}

} // verus!
