//! The events that the queue publishes, and what a subscriber does with each
//! thing it receives.

use crate::item::{ItemView, QueueItem, Update, UpdateView};
use crate::number::{decimal, decimal_chars};
use crate::text::{chars_of, push_all, text_of};
use crate::progress::{opt_text, Progress, ProgressUpdate, ProgressUpdateView};
use crate::status::DownloadStatus;
use vstd::prelude::*;

verus! {

/// A lifecycle or progress event, as delivered to subscribers.
#[derive(Clone, Debug)]
pub enum WsEvent {
    Progress { id: String, progress: Progress, speed: Option<String>, eta: Option<String> },
    StatusChange { id: String, status: DownloadStatus },
    ItemAdded { item: QueueItem },
    ItemRemoved { id: String },
    Error { id: String, message: String },
}

/// What a [`WsEvent`] holds, as plain values.
pub enum EventView {
    Progress { id: Seq<char>, progress: Progress, speed: Option<Seq<char>>, eta: Option<Seq<char>> },
    StatusChange { id: Seq<char>, status: DownloadStatus },
    ItemAdded { item: ItemView },
    ItemRemoved { id: Seq<char> },
    Error { id: Seq<char>, message: Seq<char> },
}

impl View for WsEvent {
    type V = EventView;

    open spec fn view(&self) -> EventView {
        match *self {
            WsEvent::Progress { id, progress, speed, eta } => EventView::Progress {
                id: id@,
                progress,
                speed: opt_text(speed),
                eta: opt_text(eta),
            },
            WsEvent::StatusChange { id, status } => EventView::StatusChange { id: id@, status },
            WsEvent::ItemAdded { item } => EventView::ItemAdded { item: item@ },
            WsEvent::ItemRemoved { id } => EventView::ItemRemoved { id: id@ },
            WsEvent::Error { id, message } => EventView::Error { id: id@, message: message@ },
        }
    }
}

impl EventView {
    /// The id of the item that the event is about.
    pub open spec fn subject(self) -> Seq<char> {
        match self {
            EventView::Progress { id, .. } => id,
            EventView::StatusChange { id, .. } => id,
            EventView::ItemAdded { item } => item.id,
            EventView::ItemRemoved { id } => id,
            EventView::Error { id, .. } => id,
        }
    }
}

impl WsEvent {
    /// The snake-case tag under which the variant is serialised.
    pub open spec fn kind_spec(self) -> Seq<char> {
        match self {
            WsEvent::Progress { .. } => "progress"@,
            WsEvent::StatusChange { .. } => "status_change"@,
            WsEvent::ItemAdded { .. } => "item_added"@,
            WsEvent::ItemRemoved { .. } => "item_removed"@,
            WsEvent::Error { .. } => "error"@,
        }
    }

    pub fn kind(&self) -> (k: &'static str)
        ensures
            k@ == self.kind_spec(),
    {
        match self {
            WsEvent::Progress { .. } => "progress",
            WsEvent::StatusChange { .. } => "status_change",
            WsEvent::ItemAdded { .. } => "item_added",
            WsEvent::ItemRemoved { .. } => "item_removed",
            WsEvent::Error { .. } => "error",
        }
    }

    /// The id of the item that the event is about.
    pub fn subject(&self) -> (id: &String)
        ensures
            id@ == self@.subject(),
    {
        match self {
            WsEvent::Progress { id, .. } => id,
            WsEvent::StatusChange { id, .. } => id,
            WsEvent::ItemAdded { item } => &item.id,
            WsEvent::ItemRemoved { id } => id,
            WsEvent::Error { id, .. } => id,
        }
    }
}

/// The event that carries one progress report of item `id`.
pub open spec fn progress_event_spec(id: Seq<char>, update: ProgressUpdateView) -> EventView {
    EventView::Progress { id, progress: update.percent, speed: update.speed, eta: update.eta }
}

/// The event that carries one progress report of item `id`.
pub fn progress_event(id: &str, update: &ProgressUpdate) -> (e: WsEvent)
    ensures
        e@ == progress_event_spec(id@, update@),
{
    WsEvent::Progress {
        id: id.to_string(),
        progress: update.percent,
        speed: update.speed.clone(),
        eta: update.eta.clone(),
    }
}

/// The write that stores one progress report.
pub open spec fn progress_write_spec(update: ProgressUpdateView) -> UpdateView {
    UpdateView::Progress { progress: update.percent, speed: update.speed, eta: update.eta }
}

/// What one progress report of the running download of item `id` leads to:
/// the write that stores it and the event that carries it. The two are
/// handed off without waiting; only the latest report matters.
pub fn on_progress(id: &str, update: &ProgressUpdate) -> (r: (Update, WsEvent))
    ensures
        r.0@ == progress_write_spec(update@),
        r.1@ == progress_event_spec(id@, update@),
        update.percent.wf() ==> r.0@.wf(),
{
    (
        Update::Progress {
            progress: update.percent,
            speed: update.speed.clone(),
            eta: update.eta.clone(),
        },
        progress_event(id, update),
    )
}

/// Seconds between two heartbeats of a running download.
pub const HEARTBEAT_SECONDS: u64 = 30;

/// The heartbeat of a download that has been running for `elapsed` seconds:
/// a progress event without progress, whose remaining-time text says how many
/// whole minutes have passed.
pub open spec fn heartbeat_spec(id: Seq<char>, elapsed: u64) -> EventView {
    EventView::Progress {
        id,
        progress: Progress::zero_spec(),
        speed: None,
        eta: Some(decimal((elapsed / 60) as nat) + "m elapsed"@),
    }
}

/// The heartbeat of a download that has been running for `elapsed` seconds.
pub fn heartbeat(id: &str, elapsed: u64) -> (e: WsEvent)
    ensures
        e@ == heartbeat_spec(id@, elapsed),
{
    let mut text = decimal_chars(elapsed / 60);
    push_all(&mut text, &chars_of("m elapsed"));
    WsEvent::Progress {
        id: id.to_string(),
        progress: Progress::zero(),
        speed: None,
        eta: Some(text_of(text.as_slice())),
    }
}

/// What a subscriber's receive call came back with.
#[derive(Clone, Copy, Debug, PartialEq, Eq, Structural)]
pub enum Received {
    /// An event arrived.
    Event,
    /// The subscriber was too slow and this many events were dropped for it.
    Lagged(u64),
    /// The bus is gone.
    Closed,
}

/// What a subscriber does next.
#[derive(Clone, Copy, Debug, PartialEq, Eq, Structural)]
pub enum SubscriberStep {
    /// Forward the event to the client; stop if the client is gone.
    Forward,
    /// Report the lag and go on receiving.
    ReportLag(u64),
    /// Stop receiving.
    Stop,
}

pub open spec fn subscriber_step_spec(received: Received) -> SubscriberStep {
    match received {
        Received::Event => SubscriberStep::Forward,
        Received::Lagged(n) => SubscriberStep::ReportLag(n),
        Received::Closed => SubscriberStep::Stop,
    }
}

/// Lag is reported and never ends a subscription; only the end of the bus does.
pub fn subscriber_step(received: Received) -> (step: SubscriberStep)
    ensures
        step == subscriber_step_spec(received),
        step == SubscriberStep::Stop <==> received == Received::Closed,
{
    match received {
        Received::Event => SubscriberStep::Forward,
        Received::Lagged(n) => SubscriberStep::ReportLag(n),
        Received::Closed => SubscriberStep::Stop,
    }
}

} // verus!
