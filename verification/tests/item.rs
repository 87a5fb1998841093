use tapedeck::item::{QueueItem, Update};
use tapedeck::models::AddQueueItemRequest;
use tapedeck::progress::Progress;
use tapedeck::status::DownloadStatus;

fn fresh() -> QueueItem {
    AddQueueItemRequest::with_defaults("b0000001".to_string(), "A title".to_string()).new_item(
        "id-1".to_string(),
        "user-1".to_string(),
        100,
    )
}

fn downloading() -> QueueItem {
    let mut i = fresh();
    assert!(i.apply(&Update::Start { at: 200 }));
    i
}

fn all_updates() -> Vec<Update> {
    vec![
        Update::Start { at: 1 },
        Update::Progress { progress: Progress::from_thousandths(5_400), speed: None, eta: None },
        Update::SetError { message: Some("e".to_string()) },
        Update::SetError { message: None },
        Update::Complete { at: 2, output_path: Some("/x.mp4".to_string()) },
        Update::Fail { at: 3, error: "bad".to_string() },
        Update::Cancel { at: 4 },
        Update::Retry,
        Update::Reset,
    ]
}

#[test]
fn new_item_is_queued_and_blank() {
    let i = fresh();
    assert_eq!(i.status, DownloadStatus::Queued);
    assert_eq!(i.id, "id-1");
    assert_eq!(i.pid, "b0000001");
    assert_eq!(i.user_id, "user-1");
    assert_eq!(i.added_at, 100);
    assert_eq!(i.priority, 5);
    assert_eq!(i.media_type, "tv");
    assert_eq!(i.quality, "best");
    assert!(i.subtitles);
    assert_eq!(i.metadata, "{}");
    assert_eq!(i.progress, Progress::zero());
    assert_eq!(i.started_at, None);
    assert_eq!(i.completed_at, None);
    assert_eq!(i.error, None);
    assert_eq!(i.output_path, None);
    assert!(i.is_well_formed());
}

#[test]
fn start_sets_time_and_clears_progress() {
    let i = downloading();
    assert_eq!(i.status, DownloadStatus::Downloading);
    assert_eq!(i.started_at, Some(200));
    assert_eq!(i.completed_at, None);
    assert_eq!(i.progress, Progress::zero());
    assert!(i.is_well_formed());
}

#[test]
fn progress_is_taken_only_while_downloading() {
    let report = Update::Progress {
        progress: Progress::from_thousandths(23_400),
        speed: Some("3.45 MiB/s".to_string()),
        eta: Some("00:00:15".to_string()),
    };
    let mut q = fresh();
    assert!(!q.apply(&report));
    assert_eq!(q.progress, Progress::zero());
    assert_eq!(q.speed, None);
    let mut d = downloading();
    assert!(d.apply(&report));
    assert_eq!(d.progress.thousandths, 23_400);
    assert_eq!(d.progress.whole_percent(), 23);
    assert_eq!(d.speed.as_deref(), Some("3.45 MiB/s"));
    assert_eq!(d.eta.as_deref(), Some("00:00:15"));
}

#[test]
fn complete_sets_everything_of_a_finished_run() {
    let mut d = downloading();
    d.apply(&Update::SetError { message: Some("Attempt 1/3 failed".to_string()) });
    assert_eq!(d.error.as_deref(), Some("Attempt 1/3 failed"));
    assert!(d.apply(&Update::Complete { at: 300, output_path: Some("/d/x.mp4".to_string()) }));
    assert_eq!(d.status, DownloadStatus::Done);
    assert_eq!(d.completed_at, Some(300));
    assert_eq!(d.progress, Progress::full());
    assert_eq!(d.progress.thousandths, 100_000);
    assert_eq!(d.output_path.as_deref(), Some("/d/x.mp4"));
    assert_eq!(d.error, None);
    assert!(d.is_well_formed());
}

#[test]
fn fail_keeps_the_message() {
    let mut d = downloading();
    assert!(d.apply(&Update::Fail { at: 300, error: "exit 1".to_string() }));
    assert_eq!(d.status, DownloadStatus::Failed);
    assert_eq!(d.completed_at, Some(300));
    assert_eq!(d.error.as_deref(), Some("exit 1"));
    assert!(d.is_well_formed());
}

#[test]
fn cancel_applies_only_to_a_running_download() {
    let mut q = fresh();
    assert!(!q.apply(&Update::Cancel { at: 1 }));
    assert_eq!(q.status, DownloadStatus::Queued);
    let mut d = downloading();
    assert!(d.apply(&Update::Cancel { at: 250 }));
    assert_eq!(d.status, DownloadStatus::Cancelled);
    assert_eq!(d.completed_at, Some(250));
    assert!(d.is_well_formed());
}

#[test]
fn retry_clears_the_last_run() {
    for end in [Update::Fail { at: 9, error: "x".to_string() }, Update::Cancel { at: 9 }] {
        let mut d = downloading();
        d.apply(&Update::Progress {
            progress: Progress::from_thousandths(50_000),
            speed: None,
            eta: None,
        });
        assert!(d.apply(&end));
        assert!(d.apply(&Update::Retry));
        assert_eq!(d.status, DownloadStatus::Queued);
        assert_eq!(d.error, None);
        assert_eq!(d.progress, Progress::zero());
        assert_eq!(d.started_at, None);
        assert_eq!(d.completed_at, None);
        assert!(d.is_well_formed());
    }
}

#[test]
fn done_is_not_retryable() {
    let mut d = downloading();
    d.apply(&Update::Complete { at: 1, output_path: None });
    assert!(!d.apply(&Update::Retry));
    assert_eq!(d.status, DownloadStatus::Done);
}

#[test]
fn terminal_status_is_only_left_by_retry() {
    for end in [
        Update::Complete { at: 9, output_path: None },
        Update::Fail { at: 9, error: "x".to_string() },
        Update::Cancel { at: 9 },
    ] {
        for u in all_updates() {
            let mut d = downloading();
            assert!(d.apply(&end));
            let before = d.status;
            let applied = d.apply(&u);
            if d.status != before {
                assert!(matches!(u, Update::Retry));
                assert_eq!(d.status, DownloadStatus::Queued);
                assert_ne!(before, DownloadStatus::Done);
            } else {
                assert!(!applied);
            }
        }
    }
}

#[test]
fn every_write_keeps_the_item_well_formed() {
    let starts: Vec<QueueItem> = {
        let mut v = vec![fresh(), downloading()];
        for end in [
            Update::Complete { at: 9, output_path: Some("/p".to_string()) },
            Update::Fail { at: 9, error: "x".to_string() },
            Update::Cancel { at: 9 },
        ] {
            let mut d = downloading();
            d.apply(&end);
            v.push(d);
        }
        v
    };
    for s in &starts {
        assert!(s.is_well_formed());
        for u in all_updates() {
            let mut i = s.clone();
            i.apply(&u);
            assert!(i.is_well_formed(), "{:?} after {:?}", i, u);
            assert_eq!(i.id, s.id);
            assert_eq!(i.added_at, s.added_at);
        }
    }
}

#[test]
fn set_priority_applies_to_every_status() {
    let mut d = downloading();
    d.apply(&Update::Complete { at: 1, output_path: None });
    assert!(d.apply(&Update::SetPriority { priority: -3 }));
    assert_eq!(d.priority, -3);
    assert_eq!(d.status, DownloadStatus::Done);
}

#[test]
fn ill_formed_items_are_recognised() {
    let mut i = fresh();
    i.started_at = Some(1);
    assert!(!i.is_well_formed());
    let mut i = downloading();
    i.started_at = None;
    assert!(!i.is_well_formed());
    let mut i = downloading();
    i.completed_at = Some(3);
    assert!(!i.is_well_formed());
    let mut i = fresh();
    i.progress = Progress { thousandths: 100_001 };
    assert!(!i.is_well_formed());
    let mut i = fresh();
    i.output_path = Some("/x".to_string());
    assert!(!i.is_well_formed());
}

#[test]
fn readiness_follows_the_schedule() {
    let mut i = fresh();
    assert!(i.ready_at(0));
    assert!(!i.due_at(i64::MAX));
    i.scheduled_at = Some(500);
    assert!(!i.ready_at(499));
    assert!(!i.due_at(499));
    assert!(i.ready_at(500));
    assert!(i.due_at(500));
    i.apply(&Update::Start { at: 501 });
    assert!(!i.ready_at(600));
    assert!(!i.due_at(600));
}
