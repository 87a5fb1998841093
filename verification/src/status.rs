//! The lifecycle states of a queue item and the moves between them.

use crate::text::same_text;
use vstd::prelude::*;

verus! {

/// Lifecycle state of a queue item.
#[derive(Clone, Copy, Debug, PartialEq, Eq, Hash, Structural)]
pub enum DownloadStatus {
    Queued,
    Downloading,
    Done,
    Failed,
    Cancelled,
}

/// A status name that is none of the five known ones.
#[derive(Clone, Debug)]
pub struct UnknownStatus {
    pub text: String,
}

impl UnknownStatus {
    pub open spec fn message_spec(self) -> Seq<char> {
        "unknown status: "@ + self.text@
    }

    /// The message `unknown status: <text>`.
    pub fn message(&self) -> (m: String)
        ensures
            m@ == self.message_spec(),
    {
        let mut m = "unknown status: ".to_string();
        m.append(self.text.as_str());
        m
    }
}

/// Whether the state machine has an edge from `from` to `to`.
///
/// `queued → downloading → {done, failed, cancelled}`; a retry request takes
/// `failed` and `cancelled` back to `queued`; the start-up recovery takes an
/// interrupted `downloading` back to `queued`.
pub open spec fn can_move(from: DownloadStatus, to: DownloadStatus) -> bool {
    match (from, to) {
        (DownloadStatus::Queued, DownloadStatus::Downloading) => true,
        (DownloadStatus::Downloading, DownloadStatus::Done) => true,
        (DownloadStatus::Downloading, DownloadStatus::Failed) => true,
        (DownloadStatus::Downloading, DownloadStatus::Cancelled) => true,
        (DownloadStatus::Downloading, DownloadStatus::Queued) => true,
        (DownloadStatus::Failed, DownloadStatus::Queued) => true,
        (DownloadStatus::Cancelled, DownloadStatus::Queued) => true,
        _ => false,
    }
}

impl DownloadStatus {
    /// The lower-case name under which a status is stored and published.
    pub open spec fn name(self) -> Seq<char> {
        match self {
            DownloadStatus::Queued => "queued"@,
            DownloadStatus::Downloading => "downloading"@,
            DownloadStatus::Done => "done"@,
            DownloadStatus::Failed => "failed"@,
            DownloadStatus::Cancelled => "cancelled"@,
        }
    }

    /// `done`, `failed` and `cancelled` end a run.
    pub open spec fn is_terminal(self) -> bool {
        self == DownloadStatus::Done || self == DownloadStatus::Failed || self
            == DownloadStatus::Cancelled
    }

    /// Only `failed` and `cancelled` items accept a retry request.
    pub open spec fn is_retryable(self) -> bool {
        self == DownloadStatus::Failed || self == DownloadStatus::Cancelled
    }

    pub fn as_str(&self) -> (s: &'static str)
        ensures
            s@ == self.name(),
    {
        match self {
            DownloadStatus::Queued => "queued",
            DownloadStatus::Downloading => "downloading",
            DownloadStatus::Done => "done",
            DownloadStatus::Failed => "failed",
            DownloadStatus::Cancelled => "cancelled",
        }
    }

    pub fn to_string(&self) -> (s: String)
        ensures
            s@ == self.name(),
    {
        self.as_str().to_string()
    }

    /// Reads a status name: `Ok` exactly for the five names of [`Self::name`],
    /// and otherwise an error that carries the rejected text.
    pub fn from_str(s: &str) -> (r: Result<DownloadStatus, UnknownStatus>)
        ensures
            match status_named(s@) {
                Some(status) => r == Ok::<DownloadStatus, UnknownStatus>(status),
                None => r matches Err(e) && e.text@ == s@,
            },
    {
        if same_text(s, "queued") {
            Ok(DownloadStatus::Queued)
        } else if same_text(s, "downloading") {
            Ok(DownloadStatus::Downloading)
        } else if same_text(s, "done") {
            Ok(DownloadStatus::Done)
        } else if same_text(s, "failed") {
            Ok(DownloadStatus::Failed)
        } else if same_text(s, "cancelled") {
            Ok(DownloadStatus::Cancelled)
        } else {
            Err(UnknownStatus { text: s.to_string() })
        }
    }

    pub fn terminal(&self) -> (r: bool)
        ensures
            r == self.is_terminal(),
    {
        match self {
            DownloadStatus::Done | DownloadStatus::Failed | DownloadStatus::Cancelled => true,
            _ => false,
        }
    }

    pub fn retryable(&self) -> (r: bool)
        ensures
            r == self.is_retryable(),
    {
        match self {
            DownloadStatus::Failed | DownloadStatus::Cancelled => true,
            _ => false,
        }
    }
}

/// The status that a name stands for, if it is one of the five.
pub open spec fn status_named(text: Seq<char>) -> Option<DownloadStatus> {
    if text == "queued"@ {
        Some(DownloadStatus::Queued)
    } else if text == "downloading"@ {
        Some(DownloadStatus::Downloading)
    } else if text == "done"@ {
        Some(DownloadStatus::Done)
    } else if text == "failed"@ {
        Some(DownloadStatus::Failed)
    } else if text == "cancelled"@ {
        Some(DownloadStatus::Cancelled)
    } else {
        None
    }
}

/// The five names are pairwise different, so a name determines its status.
pub proof fn lemma_names_distinct(a: DownloadStatus, b: DownloadStatus)
    ensures
        a.name() == b.name() <==> a == b,
{
    reveal_strlit("queued");
    reveal_strlit("downloading");
    reveal_strlit("done");
    reveal_strlit("failed");
    reveal_strlit("cancelled");
    if a != b {
        assert(a.name().len() != b.name().len() || a.name()[0] != b.name()[0]);
    }
}

/// Reading back a written name gives the status that was written.
pub proof fn lemma_name_round_trip(status: DownloadStatus)
    ensures
        status_named(status.name()) == Some(status),
{
    lemma_names_distinct(status, DownloadStatus::Queued);
    lemma_names_distinct(status, DownloadStatus::Downloading);
    lemma_names_distinct(status, DownloadStatus::Done);
    lemma_names_distinct(status, DownloadStatus::Failed);
    lemma_names_distinct(status, DownloadStatus::Cancelled);
}

} // verus!
