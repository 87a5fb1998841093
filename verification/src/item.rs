//! A queue item, the writes that move it through its lifecycle, and what
//! stays true of it under every write.

use crate::progress::{opt_text, Progress};
use crate::status::{can_move, DownloadStatus};
use vstd::prelude::*;

verus! {

/// One download job as the store holds it. Times are microseconds since the
/// Unix epoch.
#[derive(Clone, Debug)]
pub struct QueueItem {
    pub id: String,
    pub pid: String,
    pub title: String,
    pub series: Option<String>,
    pub episode: Option<String>,
    pub channel: Option<String>,
    pub media_type: String,
    pub thumbnail_url: Option<String>,
    pub added_at: i64,
    pub scheduled_at: Option<i64>,
    pub priority: i64,
    pub status: DownloadStatus,
    pub started_at: Option<i64>,
    pub completed_at: Option<i64>,
    pub error: Option<String>,
    pub output_path: Option<String>,
    pub progress: Progress,
    pub speed: Option<String>,
    pub eta: Option<String>,
    pub file_size: Option<i64>,
    pub quality: String,
    pub subtitles: bool,
    pub metadata: String,
    pub user_id: String,
}

/// What a [`QueueItem`] holds, as plain values.
pub struct ItemView {
    pub id: Seq<char>,
    pub pid: Seq<char>,
    pub title: Seq<char>,
    pub series: Option<Seq<char>>,
    pub episode: Option<Seq<char>>,
    pub channel: Option<Seq<char>>,
    pub media_type: Seq<char>,
    pub thumbnail_url: Option<Seq<char>>,
    pub added_at: i64,
    pub scheduled_at: Option<i64>,
    pub priority: i64,
    pub status: DownloadStatus,
    pub started_at: Option<i64>,
    pub completed_at: Option<i64>,
    pub error: Option<Seq<char>>,
    pub output_path: Option<Seq<char>>,
    pub progress: Progress,
    pub speed: Option<Seq<char>>,
    pub eta: Option<Seq<char>>,
    pub file_size: Option<i64>,
    pub quality: Seq<char>,
    pub subtitles: bool,
    pub metadata: Seq<char>,
    pub user_id: Seq<char>,
}

impl View for QueueItem {
    type V = ItemView;

    open spec fn view(&self) -> ItemView {
        ItemView {
            id: self.id@,
            pid: self.pid@,
            title: self.title@,
            series: opt_text(self.series),
            episode: opt_text(self.episode),
            channel: opt_text(self.channel),
            media_type: self.media_type@,
            thumbnail_url: opt_text(self.thumbnail_url),
            added_at: self.added_at,
            scheduled_at: self.scheduled_at,
            priority: self.priority,
            status: self.status,
            started_at: self.started_at,
            completed_at: self.completed_at,
            error: opt_text(self.error),
            output_path: opt_text(self.output_path),
            progress: self.progress,
            speed: opt_text(self.speed),
            eta: opt_text(self.eta),
            file_size: self.file_size,
            quality: self.quality@,
            subtitles: self.subtitles,
            metadata: self.metadata@,
            user_id: self.user_id@,
        }
    }
}

/// A single-row write. Each one names the statuses it applies to; on any other
/// row it changes nothing.
#[derive(Clone, Debug)]
pub enum Update {
    /// `queued → downloading`, with the start time and progress 0.
    Start { at: i64 },
    /// While downloading: the latest progress report.
    Progress { progress: Progress, speed: Option<String>, eta: Option<String> },
    /// While downloading: the message of a pending retry, or its removal.
    SetError { message: Option<String> },
    /// `downloading → done`, with progress 100, the artifact and no error.
    Complete { at: i64, output_path: Option<String> },
    /// `downloading → failed`, with the last failure message.
    Fail { at: i64, error: String },
    /// `downloading → cancelled`.
    Cancel { at: i64 },
    /// `failed | cancelled → queued`: a retry request.
    Retry,
    /// `downloading → queued`: a run that a process exit interrupted.
    Reset,
    /// The priority, whatever the status.
    SetPriority { priority: i64 },
}

/// What an [`Update`] holds, as plain values.
pub enum UpdateView {
    Start { at: i64 },
    Progress { progress: Progress, speed: Option<Seq<char>>, eta: Option<Seq<char>> },
    SetError { message: Option<Seq<char>> },
    Complete { at: i64, output_path: Option<Seq<char>> },
    Fail { at: i64, error: Seq<char> },
    Cancel { at: i64 },
    Retry,
    Reset,
    SetPriority { priority: i64 },
}

impl View for Update {
    type V = UpdateView;

    open spec fn view(&self) -> UpdateView {
        match *self {
            Update::Start { at } => UpdateView::Start { at },
            Update::Progress { progress, speed, eta } => UpdateView::Progress {
                progress,
                speed: opt_text(speed),
                eta: opt_text(eta),
            },
            Update::SetError { message } => UpdateView::SetError { message: opt_text(message) },
            Update::Complete { at, output_path } => UpdateView::Complete {
                at,
                output_path: opt_text(output_path),
            },
            Update::Fail { at, error } => UpdateView::Fail { at, error: error@ },
            Update::Cancel { at } => UpdateView::Cancel { at },
            Update::Retry => UpdateView::Retry,
            Update::Reset => UpdateView::Reset,
            Update::SetPriority { priority } => UpdateView::SetPriority { priority },
        }
    }
}

impl UpdateView {
    /// A progress report must itself be within `[0, 100]`.
    pub open spec fn wf(self) -> bool {
        self matches UpdateView::Progress { progress, .. } ==> progress.wf()
    }

    /// The statuses of the rows that this write touches.
    pub open spec fn applies_to(self, status: DownloadStatus) -> bool {
        match self {
            UpdateView::Start { .. } => status == DownloadStatus::Queued,
            UpdateView::Progress { .. } => status == DownloadStatus::Downloading,
            UpdateView::SetError { .. } => status == DownloadStatus::Downloading,
            UpdateView::Complete { .. } => status == DownloadStatus::Downloading,
            UpdateView::Fail { .. } => status == DownloadStatus::Downloading,
            UpdateView::Cancel { .. } => status == DownloadStatus::Downloading,
            UpdateView::Retry => status.is_retryable(),
            UpdateView::Reset => status == DownloadStatus::Downloading,
            UpdateView::SetPriority { .. } => true,
        }
    }
}

impl ItemView {
    /// What every stored item satisfies.
    pub open spec fn wf(self) -> bool {
        &&& self.progress.wf()
        &&& self.status == DownloadStatus::Downloading ==> self.started_at.is_some()
            && self.completed_at.is_none()
        &&& self.status == DownloadStatus::Queued ==> self.started_at.is_none()
            && self.completed_at.is_none() && self.progress == Progress::zero_spec()
        &&& self.output_path.is_some() ==> self.status == DownloadStatus::Done
    }

    /// The row after the write `u`.
    pub open spec fn apply(self, u: UpdateView) -> ItemView {
        if !u.applies_to(self.status) {
            self
        } else {
            match u {
                UpdateView::Start { at } => ItemView {
                    status: DownloadStatus::Downloading,
                    started_at: Some(at),
                    progress: Progress::zero_spec(),
                    ..self
                },
                UpdateView::Progress { progress, speed, eta } => ItemView {
                    progress,
                    speed,
                    eta,
                    ..self
                },
                UpdateView::SetError { message } => ItemView { error: message, ..self },
                UpdateView::Complete { at, output_path } => ItemView {
                    status: DownloadStatus::Done,
                    completed_at: Some(at),
                    progress: Progress::full_spec(),
                    output_path,
                    error: None,
                    ..self
                },
                UpdateView::Fail { at, error } => ItemView {
                    status: DownloadStatus::Failed,
                    completed_at: Some(at),
                    error: Some(error),
                    ..self
                },
                UpdateView::Cancel { at } => ItemView {
                    status: DownloadStatus::Cancelled,
                    completed_at: Some(at),
                    ..self
                },
                UpdateView::Retry => ItemView {
                    status: DownloadStatus::Queued,
                    error: None,
                    progress: Progress::zero_spec(),
                    started_at: None,
                    completed_at: None,
                    ..self
                },
                UpdateView::Reset => ItemView {
                    status: DownloadStatus::Queued,
                    started_at: None,
                    progress: Progress::zero_spec(),
                    ..self
                },
                UpdateView::SetPriority { priority } => ItemView { priority, ..self },
            }
        }
    }

    /// Whether the item may be handed to the worker pool at `now`: it is queued,
    /// and its scheduled time, if it has one, has come.
    pub open spec fn is_ready(self, now: i64) -> bool {
        self.status == DownloadStatus::Queued && match self.scheduled_at {
            Some(t) => t <= now,
            None => true,
        }
    }

    /// Whether the item was scheduled and its time has come.
    pub open spec fn is_due(self, now: i64) -> bool {
        self.status == DownloadStatus::Queued && match self.scheduled_at {
            Some(t) => t <= now,
            None => false,
        }
    }
}

fn clone_opt(s: &Option<String>) -> (r: Option<String>)
    ensures
        opt_text(r) == opt_text(*s),
{
    match s {
        Some(t) => Some(t.clone()),
        None => None,
    }
}

impl QueueItem {
    pub open spec fn wf(&self) -> bool {
        self@.wf()
    }

    /// Checks [`ItemView::wf`] at run time.
    pub fn is_well_formed(&self) -> (r: bool)
        ensures
            r == self.wf(),
    {
        let downloading = self.status == DownloadStatus::Downloading;
        let queued = self.status == DownloadStatus::Queued;
        self.progress.thousandths <= crate::progress::FULL_THOUSANDTHS && (!downloading || (
        self.started_at.is_some() && self.completed_at.is_none())) && (!queued || (
        self.started_at.is_none() && self.completed_at.is_none() && self.progress.thousandths
            == 0)) && (self.output_path.is_none() || self.status == DownloadStatus::Done)
    }

    /// Makes the write `u` on this row, and says whether the row was one that
    /// `u` applies to.
    pub fn apply(&mut self, u: &Update) -> (applied: bool)
        ensures
            final(self)@ == old(self)@.apply(u@),
            applied == u@.applies_to(old(self).status),
    {
        match u {
            Update::Start { at } => {
                if self.status == DownloadStatus::Queued {
                    self.status = DownloadStatus::Downloading;
                    self.started_at = Some(*at);
                    self.progress = Progress::zero();
                    true
                } else {
                    false
                }
            },
            Update::Progress { progress, speed, eta } => {
                if self.status == DownloadStatus::Downloading {
                    self.progress = *progress;
                    self.speed = clone_opt(speed);
                    self.eta = clone_opt(eta);
                    true
                } else {
                    false
                }
            },
            Update::SetError { message } => {
                if self.status == DownloadStatus::Downloading {
                    self.error = clone_opt(message);
                    true
                } else {
                    false
                }
            },
            Update::Complete { at, output_path } => {
                if self.status == DownloadStatus::Downloading {
                    self.status = DownloadStatus::Done;
                    self.completed_at = Some(*at);
                    self.progress = Progress::full();
                    self.output_path = clone_opt(output_path);
                    self.error = None;
                    true
                } else {
                    false
                }
            },
            Update::Fail { at, error } => {
                if self.status == DownloadStatus::Downloading {
                    self.status = DownloadStatus::Failed;
                    self.completed_at = Some(*at);
                    self.error = Some(error.clone());
                    true
                } else {
                    false
                }
            },
            Update::Cancel { at } => {
                if self.status == DownloadStatus::Downloading {
                    self.status = DownloadStatus::Cancelled;
                    self.completed_at = Some(*at);
                    true
                } else {
                    false
                }
            },
            Update::Retry => {
                if self.status.retryable() {
                    self.status = DownloadStatus::Queued;
                    self.error = None;
                    self.progress = Progress::zero();
                    self.started_at = None;
                    self.completed_at = None;
                    true
                } else {
                    false
                }
            },
            Update::Reset => {
                if self.status == DownloadStatus::Downloading {
                    self.status = DownloadStatus::Queued;
                    self.started_at = None;
                    self.progress = Progress::zero();
                    true
                } else {
                    false
                }
            },
            Update::SetPriority { priority } => {
                self.priority = *priority;
                true
            },
        }
    }

    /// Whether the item may be handed to the worker pool at `now`.
    pub fn ready_at(&self, now: i64) -> (r: bool)
        ensures
            r == self@.is_ready(now),
    {
        self.status == DownloadStatus::Queued && match self.scheduled_at {
            Some(t) => t <= now,
            None => true,
        }
    }

    /// Whether the item was scheduled and its time has come.
    pub fn due_at(&self, now: i64) -> (r: bool)
        ensures
            r == self@.is_due(now),
    {
        self.status == DownloadStatus::Queued && match self.scheduled_at {
            Some(t) => t <= now,
            None => false,
        }
    }
}

/// Every write keeps a well-formed row well-formed.
pub proof fn lemma_apply_keeps_wf(item: ItemView, u: UpdateView)
    requires
        item.wf(),
        u.wf(),
    ensures
        item.apply(u).wf(),
{
}

/// A write changes the status only along an edge of the state machine, and
/// never changes the identity or the creation time of the row.
pub proof fn lemma_apply_follows_machine(item: ItemView, u: UpdateView)
    ensures
        item.apply(u).status == item.status || can_move(item.status, item.apply(u).status),
        item.apply(u).id == item.id,
        item.apply(u).added_at == item.added_at,
{
}

/// A terminal status is overwritten by a retry request only, and then it
/// becomes `queued`; `done` is never overwritten.
pub proof fn lemma_terminal_is_kept(item: ItemView, u: UpdateView)
    requires
        item.status.is_terminal(),
        item.apply(u).status != item.status,
    ensures
        u is Retry,
        item.status != DownloadStatus::Done,
        item.apply(u).status == DownloadStatus::Queued,
{
}

/// A run that start-up recovery resets is queued again, with no start time
/// and no progress.
pub proof fn lemma_reset_clears_run(item: ItemView)
    requires
        item.status == DownloadStatus::Downloading,
    ensures
        item.apply(UpdateView::Reset).status == DownloadStatus::Queued,
        item.apply(UpdateView::Reset).started_at.is_none(),
        item.apply(UpdateView::Reset).progress == Progress::zero_spec(),
{
}

/// A retry request clears what the last run left behind.
pub proof fn lemma_retry_clears_run(item: ItemView)
    requires
        item.status.is_retryable(),
    ensures
        item.apply(UpdateView::Retry).status == DownloadStatus::Queued,
        item.apply(UpdateView::Retry).error.is_none(),
        item.apply(UpdateView::Retry).progress == Progress::zero_spec(),
        item.apply(UpdateView::Retry).started_at.is_none(),
        item.apply(UpdateView::Retry).completed_at.is_none(),
{
}

} // verus!
