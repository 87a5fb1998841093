//! Users, settings and the bodies of requests and responses.

use crate::ids::{is_uuid_v4_text, random_uuid};
use crate::item::{ItemView, QueueItem};
use crate::progress::{opt_text, Progress};
use crate::status::DownloadStatus;
use vstd::prelude::*;

verus! {

/// An account.
#[derive(Clone, Debug)]
pub struct User {
    pub id: String,
    pub username: String,
    /// The password hash; never sent to a client.
    pub password: String,
    pub created_at: String,
    pub updated_at: String,
}

impl User {
    /// A fresh user id.
    pub fn new_id() -> (id: String)
        ensures
            is_uuid_v4_text(id@),
    {
        random_uuid()
    }
}

impl QueueItem {
    /// A fresh item id.
    pub fn new_id() -> (id: String)
        ensures
            is_uuid_v4_text(id@),
    {
        random_uuid()
    }
}

/// The body of a request to add an item. A scheduled time is in
/// microseconds since the Unix epoch.
#[derive(Clone, Debug)]
pub struct AddQueueItemRequest {
    pub pid: String,
    pub title: String,
    pub series: Option<String>,
    pub episode: Option<String>,
    pub channel: Option<String>,
    pub media_type: String,
    pub thumbnail_url: Option<String>,
    pub scheduled_at: Option<i64>,
    pub priority: i64,
    pub quality: String,
    pub subtitles: bool,
}

pub fn default_media_type() -> (s: String)
    ensures
        s@ == "tv"@,
{
    "tv".to_string()
}

pub fn default_priority() -> (p: i64)
    ensures
        p == 5,
{
    5
}

pub fn default_quality() -> (s: String)
    ensures
        s@ == "best"@,
{
    "best".to_string()
}

pub fn default_subtitles() -> (b: bool)
    ensures
        b,
{
    true
}

impl AddQueueItemRequest {
    /// A request for programme `pid` in which everything that may be left out
    /// has its default.
    pub fn with_defaults(pid: String, title: String) -> (r: AddQueueItemRequest)
        ensures
            r.pid == pid,
            r.title == title,
            r.series.is_none() && r.episode.is_none() && r.channel.is_none(),
            r.thumbnail_url.is_none() && r.scheduled_at.is_none(),
            r.media_type@ == "tv"@,
            r.priority == 5,
            r.quality@ == "best"@,
            r.subtitles,
    {
        AddQueueItemRequest {
            pid,
            title,
            series: None,
            episode: None,
            channel: None,
            media_type: default_media_type(),
            thumbnail_url: None,
            scheduled_at: None,
            priority: default_priority(),
            quality: default_quality(),
            subtitles: default_subtitles(),
        }
    }

    /// The row that the request creates: queued, without progress, with empty
    /// metadata.
    pub open spec fn new_item_spec(
        self,
        id: Seq<char>,
        user_id: Seq<char>,
        now: i64,
    ) -> ItemView {
        ItemView {
            id,
            pid: self.pid@,
            title: self.title@,
            series: opt_text(self.series),
            episode: opt_text(self.episode),
            channel: opt_text(self.channel),
            media_type: self.media_type@,
            thumbnail_url: opt_text(self.thumbnail_url),
            added_at: now,
            scheduled_at: self.scheduled_at,
            priority: self.priority,
            status: DownloadStatus::Queued,
            started_at: None,
            completed_at: None,
            error: None,
            output_path: None,
            progress: Progress::zero_spec(),
            speed: None,
            eta: None,
            file_size: None,
            quality: self.quality@,
            subtitles: self.subtitles,
            metadata: "{}"@,
            user_id,
        }
    }

    /// The row that the request creates.
    pub fn new_item(&self, id: String, user_id: String, now: i64) -> (item: QueueItem)
        ensures
            item@ == self.new_item_spec(id@, user_id@, now),
            item.wf(),
    {
        QueueItem {
            id,
            pid: self.pid.clone(),
            title: self.title.clone(),
            series: self.series.clone(),
            episode: self.episode.clone(),
            channel: self.channel.clone(),
            media_type: self.media_type.clone(),
            thumbnail_url: self.thumbnail_url.clone(),
            added_at: now,
            scheduled_at: self.scheduled_at,
            priority: self.priority,
            status: DownloadStatus::Queued,
            started_at: None,
            completed_at: None,
            error: None,
            output_path: None,
            progress: Progress::zero(),
            speed: None,
            eta: None,
            file_size: None,
            quality: self.quality.clone(),
            subtitles: self.subtitles,
            metadata: "{}".to_string(),
            user_id,
        }
    }
}

#[derive(Clone, Debug)]
pub struct LoginRequest {
    pub username: String,
    pub password: String,
}

#[derive(Clone, Debug)]
pub struct LoginResponse {
    pub token: String,
    pub user_id: String,
    pub username: String,
}

#[derive(Clone, Debug)]
pub struct CreateUserRequest {
    pub username: String,
    pub password: String,
}

/// One page of a listing.
#[derive(Debug)]
pub struct PaginatedResponse<T> {
    pub data: Vec<T>,
    pub total: i64,
    pub page: i64,
    pub per_page: i64,
}

/// The query of a listing of the queue.
#[derive(Clone, Debug)]
pub struct QueueQuery {
    pub status: Option<String>,
    pub page: Option<i64>,
    pub per_page: Option<i64>,
}

/// A key/value setting.
#[derive(Clone, Debug)]
pub struct Setting {
    pub key: String,
    pub value: String,
    pub updated_at: String,
}

} // verus!
