//! The queue endpoints: listing, adding, removing, retrying, reordering.

use crate::error::{AppError, AppErrorView};
use crate::event::{EventView, WsEvent};
use crate::item::{ItemView, QueueItem, Update, UpdateView};
use crate::models::{AddQueueItemRequest, PaginatedResponse, QueueQuery};
use crate::progress::opt_text;
use crate::status::DownloadStatus;
use crate::text::same_text;
use vstd::prelude::*;

verus! {

/// Items per page where a query names none.
pub const DEFAULT_PER_PAGE: i64 = 25;

/// The most items that a page holds.
pub const MAX_PER_PAGE: i64 = 100;

/// The part of a listing that a query asks for.
#[derive(Clone, Copy, Debug, PartialEq, Eq, Structural)]
pub struct PageWindow {
    /// The page, counted from 1.
    pub page: i64,
    /// Items per page, from 1 to [`MAX_PER_PAGE`].
    pub per_page: i64,
    /// Items to skip.
    pub offset: i64,
}

/// The window of a query: page 1 of 25 by default, the page at least 1, the
/// page size from 1 to 100. An offset that does not fit 64 bits is the
/// largest that does.
pub open spec fn page_window_spec(page: Option<i64>, per_page: Option<i64>) -> PageWindow {
    let page = match page {
        Some(p) => if p < 1 {
            1
        } else {
            p
        },
        None => 1,
    };
    let per_page = match per_page {
        Some(n) => if n < 1 {
            1
        } else if n > MAX_PER_PAGE {
            MAX_PER_PAGE
        } else {
            n
        },
        None => DEFAULT_PER_PAGE,
    };
    PageWindow {
        page,
        per_page,
        offset: if (page - 1) * per_page <= i64::MAX {
            ((page - 1) * per_page) as i64
        } else {
            i64::MAX
        },
    }
}

/// The window that a query asks for.
pub fn page_window(q: &QueueQuery) -> (w: PageWindow)
    ensures
        w == page_window_spec(q.page, q.per_page),
        w.page >= 1,
        1 <= w.per_page <= MAX_PER_PAGE,
        w.offset >= 0,
{
    let page: i64 = match q.page {
        Some(p) => if p < 1 {
            1
        } else {
            p
        },
        None => 1,
    };
    let per_page: i64 = match q.per_page {
        Some(n) => if n < 1 {
            1
        } else if n > MAX_PER_PAGE {
            MAX_PER_PAGE
        } else {
            n
        },
        None => DEFAULT_PER_PAGE,
    };
    assert(0 <= (page - 1) * per_page <= 0x7fff_ffff_ffff_ffff * 100) by (nonlinear_arith)
        requires
            0 <= page - 1 <= 0x7fff_ffff_ffff_ffff,
            1 <= per_page <= 100,
    ;
    let wide: i128 = (page as i128 - 1) * per_page as i128;
    let offset: i64 = if wide <= i64::MAX as i128 {
        wide as i64
    } else {
        i64::MAX
    };
    PageWindow { page, per_page, offset }
}

/// One page of a listing: the rows of the window and the number of rows in
/// all.
pub fn paginated<T>(data: Vec<T>, total: i64, window: PageWindow) -> (page: PaginatedResponse<T>)
    ensures
        page.data == data,
        page.total == total,
        page.page == window.page,
        page.per_page == window.per_page,
{
    PaginatedResponse { data, total, page: window.page, per_page: window.per_page }
}

/// The row of a request for one item: not found where the store has none.
pub fn get_queue_item(item: Option<QueueItem>) -> (r: Result<QueueItem, AppError>)
    ensures
        match (item, r) {
            (Some(i), Ok(found)) => found == i,
            (None, Err(e)) => e@ == AppErrorView::NotFound,
            _ => false,
        },
{
    match item {
        Some(i) => Ok(i),
        None => Err(AppError::NotFound),
    }
}

/// Whether a row stands in the way of adding programme `pid`: it is the same
/// programme, queued or downloading.
pub open spec fn blocks_pid(item: ItemView, pid: Seq<char>) -> bool {
    item.pid == pid && (item.status == DownloadStatus::Queued || item.status
        == DownloadStatus::Downloading)
}

/// Whether programme `pid` is already queued or downloading.
pub fn is_pending_pid(items: &Vec<QueueItem>, pid: &str) -> (r: bool)
    ensures
        r == exists|i: int| 0 <= i < items.len() && blocks_pid(#[trigger] items@[i]@, pid@),
{
    let mut i: usize = 0;
    while i < items.len()
        invariant
            i <= items.len(),
            forall|j: int| 0 <= j < i ==> !blocks_pid(#[trigger] items@[j]@, pid@),
        decreases items.len() - i,
    {
        let pending = match items[i].status {
            DownloadStatus::Queued | DownloadStatus::Downloading => true,
            _ => false,
        };
        if pending && same_text(items[i].pid.as_str(), pid) {
            assert(blocks_pid(items@[i as int]@, pid@));
            return true;
        }
        i += 1;
    }
    false
}

/// What adding an item leads to.
#[derive(Clone, Debug)]
pub struct Added {
    /// The row to insert.
    pub item: QueueItem,
    /// Whether the id goes to the worker pool at once: only an item without
    /// a scheduled time does.
    pub submit: bool,
    /// The event to publish.
    pub event: WsEvent,
}

/// The message that refuses a programme that is already pending.
pub open spec fn already_queued_message(pid: Seq<char>) -> Seq<char> {
    "PID "@ + pid + " is already queued"@
}

/// Adds an item: refused with a conflict where the programme is already
/// pending, else a queued row, submitted at once unless it is scheduled.
pub fn add_to_queue(
    req: &AddQueueItemRequest,
    already_pending: bool,
    id: String,
    user_id: String,
    now: i64,
) -> (r: Result<Added, AppError>)
    ensures
        match r {
            Ok(added) => !already_pending && added.item@ == req.new_item_spec(id@, user_id@, now)
                && added.item.wf() && added.submit == req.scheduled_at.is_none() && added.event@
                == (EventView::ItemAdded { item: added.item@ }),
            Err(e) => already_pending && e@ == AppErrorView::Conflict(
                already_queued_message(req.pid@),
            ),
        },
{
    if already_pending {
        let mut message = "PID ".to_string();
        message.append(req.pid.as_str());
        message.append(" is already queued");
        return Err(AppError::Conflict(message));
    }
    let item = req.new_item(id, user_id, now);
    let copy = req.new_item(item.id.clone(), item.user_id.clone(), now);
    Ok(Added { item, submit: req.scheduled_at.is_none(), event: WsEvent::ItemAdded { item: copy } })
}

/// How an item is removed.
#[derive(Clone, Debug)]
pub enum Removal {
    /// A running download is marked cancelled; its run notices and cleans up.
    Cancel { write: Update },
    /// Any other row is deleted, and its artifact with it.
    Delete { artifact: Option<String> },
}

pub enum RemovalView {
    Cancel { write: UpdateView },
    Delete { artifact: Option<Seq<char>> },
}

impl View for Removal {
    type V = RemovalView;

    open spec fn view(&self) -> RemovalView {
        match *self {
            Removal::Cancel { write } => RemovalView::Cancel { write: write@ },
            Removal::Delete { artifact } => RemovalView::Delete { artifact: opt_text(artifact) },
        }
    }
}

/// How the row is removed: cancelled while it downloads, deleted otherwise.
/// An empty output path names no artifact.
pub open spec fn removal_spec(item: ItemView, now: i64) -> RemovalView {
    if item.status == DownloadStatus::Downloading {
        RemovalView::Cancel { write: UpdateView::Cancel { at: now } }
    } else {
        RemovalView::Delete {
            artifact: match item.output_path {
                Some(path) => if path.len() > 0 {
                    Some(path)
                } else {
                    None
                },
                None => None,
            },
        }
    }
}

/// Removes an item: not found where there is none, else the way to remove
/// it and the event to publish afterwards.
pub fn remove_from_queue(item: Option<&QueueItem>, now: i64) -> (r: Result<
    (Removal, WsEvent),
    AppError,
>)
    ensures
        match (item, r) {
            (Some(i), Ok((removal, event))) => removal@ == removal_spec(i@, now) && event@ == (
            EventView::ItemRemoved { id: i.id@ }),
            (None, Err(e)) => e@ == AppErrorView::NotFound,
            _ => false,
        },
{
    match item {
        None => Err(AppError::NotFound),
        Some(i) => {
            let event = WsEvent::ItemRemoved { id: i.id.clone() };
            if i.status == DownloadStatus::Downloading {
                Ok((Removal::Cancel { write: Update::Cancel { at: now } }, event))
            } else {
                let artifact = match &i.output_path {
                    Some(path) => if path.as_str().is_empty() {
                        None
                    } else {
                        Some(path.clone())
                    },
                    None => None,
                };
                Ok((Removal::Delete { artifact }, event))
            }
        },
    }
}

/// A retry request on a row: the row takes [`Update::Retry`], which changes
/// a failed or cancelled item only, and its id is then submitted in any
/// case; the run checks for itself whether the item is still to be run.
pub fn retry_queue_item(item: Option<QueueItem>) -> (r: Result<QueueItem, AppError>)
    ensures
        match (item, r) {
            (Some(before), Ok(after)) => after@ == before@.apply(UpdateView::Retry),
            (None, Err(e)) => e@ == AppErrorView::NotFound,
            _ => false,
        },
{
    match item {
        None => Err(AppError::NotFound),
        Some(mut i) => {
            i.apply(&Update::Retry);
            Ok(i)
        },
    }
}

/// One new priority.
#[derive(Clone, Debug)]
pub struct ReorderEntry {
    pub id: String,
    pub priority: i64,
}

/// The write that an entry asks for.
pub fn reorder_write(entry: &ReorderEntry) -> (u: Update)
    ensures
        u@ == (UpdateView::SetPriority { priority: entry.priority }),
{
    Update::SetPriority { priority: entry.priority }
}

/// The writes of a reordering: for each entry, in order, the id of the row
/// and the priority that it gets.
pub fn reorder_queue(entries: &Vec<ReorderEntry>) -> (writes: Vec<(String, Update)>)
    ensures
        writes@.len() == entries@.len(),
        forall|i: int|
            0 <= i < entries@.len() ==> (#[trigger] writes@[i]).0@ == entries@[i].id@
                && writes@[i].1@ == (UpdateView::SetPriority { priority: entries@[i].priority }),
{
    let mut writes: Vec<(String, Update)> = Vec::new();
    let mut i: usize = 0;
    while i < entries.len()
        invariant
            i <= entries.len(),
            writes@.len() == i,
            forall|k: int|
                0 <= k < i ==> (#[trigger] writes@[k]).0@ == entries@[k].id@ && writes@[k].1@ == (
                UpdateView::SetPriority { priority: entries@[k].priority }),
        decreases entries.len() - i,
    {
        writes.push((entries[i].id.clone(), reorder_write(&entries[i])));
        i += 1;
    }
    writes
}

} // verus!
