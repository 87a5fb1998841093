//! Whole runs of the queue against a store, a bus and a Downloader that live
//! in memory.

use tapedeck::event::WsEvent;
use tapedeck::item::{QueueItem, Update};
use tapedeck::models::AddQueueItemRequest;
use tapedeck::pool::WorkerPool;
use tapedeck::progress::Progress;
use tapedeck::recovery::{enqueue_scheduled, requeue_interrupted};
use tapedeck::retry::{Action, Input, Outcome, RetryController};
use tapedeck::routes::settings::{get_setting, set_setting, SetSettingRequest};
use tapedeck::status::DownloadStatus;

/// The outside world of a run: rows, settings, published events, the waits
/// made, the artifacts deleted, and what the Downloader will answer.
struct World {
    items: Vec<QueueItem>,
    settings: Vec<tapedeck::models::Setting>,
    events: Vec<WsEvent>,
    slept: Vec<u64>,
    deleted: Vec<String>,
    attempts: u32,
    script: Vec<Result<String, String>>,
    cancel_during_attempt: Option<u32>,
    now: i64,
}

impl World {
    fn new(items: Vec<QueueItem>) -> World {
        World {
            items,
            settings: Vec::new(),
            events: Vec::new(),
            slept: Vec::new(),
            deleted: Vec::new(),
            attempts: 0,
            script: Vec::new(),
            cancel_during_attempt: None,
            now: 1_000,
        }
    }

    fn row(&mut self, id: &str) -> Option<&mut QueueItem> {
        self.items.iter_mut().find(|i| i.id == id)
    }

    fn status(&self, id: &str) -> Option<DownloadStatus> {
        self.items.iter().find(|i| i.id == id).map(|i| i.status)
    }

    fn write(&mut self, id: &str, update: &Update) -> bool {
        match self.row(id) {
            Some(row) => {
                assert!(row.is_well_formed());
                let applied = row.apply(update);
                assert!(row.is_well_formed());
                applied
            }
            None => false,
        }
    }

    /// Runs the job of `id` to its end and returns the outcome.
    fn run(&mut self, id: &str, fallback_retries: u32) -> Outcome {
        let mut c = RetryController::new(id.to_string(), fallback_retries);
        let mut input = Input::Start;
        loop {
            self.now += 1;
            let actions = c.step(input, self.now);
            assert!(c.attempt <= c.max_retries);
            let mut answer: Option<Input> = None;
            for action in actions {
                assert!(answer.is_none(), "an action follows one that wants an answer");
                match action {
                    Action::LoadItem => {
                        answer = Some(Input::Item(self.items.iter().find(|i| i.id == id).cloned()));
                    }
                    Action::Write(update) => {
                        let applied = self.write(id, &update);
                        if matches!(update, Update::Start { .. }) {
                            answer = Some(Input::Written(applied));
                        }
                    }
                    Action::Publish(event) => self.events.push(event),
                    Action::ReadSetting => {
                        answer = Some(Input::Setting(get_setting(
                            &self.settings,
                            tapedeck::config::max_retries_setting_key(),
                        )));
                    }
                    Action::RunDownloader => {
                        if self.attempts == 0 {
                            assert_eq!(self.status(id), Some(DownloadStatus::Downloading));
                        }
                        self.attempts += 1;
                        if self.cancel_during_attempt == Some(self.attempts) {
                            let now = self.now;
                            assert!(self.write(id, &Update::Cancel { at: now }));
                        }
                        let result = if self.script.is_empty() {
                            Err("boom".to_string())
                        } else {
                            self.script.remove(0)
                        };
                        answer = Some(Input::Attempt(result));
                    }
                    Action::Sleep { seconds } => self.slept.push(seconds),
                    Action::LoadStatus => {
                        answer = Some(Input::Status(self.status(id)));
                    }
                    Action::DeleteArtifact { path } => self.deleted.push(path),
                }
            }
            match answer {
                Some(next) => input = next,
                None => return c.outcome().expect("a run without a pending answer has ended"),
            }
        }
    }

    fn status_changes(&self, status: DownloadStatus) -> usize {
        self.events
            .iter()
            .filter(|e| matches!(e, WsEvent::StatusChange { status: s, .. } if *s == status))
            .count()
    }

    fn errors(&self) -> Vec<String> {
        self.events
            .iter()
            .filter_map(|e| match e {
                WsEvent::Error { message, .. } => Some(message.clone()),
                _ => None,
            })
            .collect()
    }
}

fn item(id: &str, added_at: i64) -> QueueItem {
    AddQueueItemRequest::with_defaults(format!("pid-{id}"), format!("Title {id}")).new_item(
        id.to_string(),
        "user-1".to_string(),
        added_at,
    )
}

fn scheduled(id: &str, added_at: i64, at: i64) -> QueueItem {
    let mut req = AddQueueItemRequest::with_defaults(format!("pid-{id}"), format!("Title {id}"));
    req.scheduled_at = Some(at);
    req.new_item(id.to_string(), "user-1".to_string(), added_at)
}

#[test]
fn fails_twice_then_succeeds() {
    let a = item("A", 10);
    assert_eq!(a.priority, 5);
    assert_eq!(a.scheduled_at, None);
    let mut w = World::new(vec![a]);
    w.script = vec![
        Err("network down".to_string()),
        Err("network down".to_string()),
        Ok("/downloads/A.mp4".to_string()),
    ];
    let outcome = w.run("A", 3);
    assert_eq!(outcome, Outcome::Done);
    assert_eq!(w.attempts, 3);
    let row = w.row("A").unwrap().clone();
    assert_eq!(row.status, DownloadStatus::Done);
    assert_eq!(row.error, None);
    assert_eq!(row.progress, Progress::full());
    assert_eq!(row.output_path.as_deref(), Some("/downloads/A.mp4"));
    assert!(row.completed_at.is_some());
    // one `downloading` when the run starts and one for each retry, then `done`
    assert_eq!(w.status_changes(DownloadStatus::Downloading), 3);
    assert_eq!(w.status_changes(DownloadStatus::Done), 1);
    assert_eq!(w.status_changes(DownloadStatus::Failed), 0);
    assert_eq!(w.errors().len(), 2);
    assert_eq!(w.slept, vec![2, 4]);
    assert!(w.slept.iter().sum::<u64>() >= 6);
    assert_eq!(
        w.errors()[0],
        "Attempt 1/3 failed: network down. Retrying in 2s\u{2026}"
    );
    assert_eq!(
        w.errors()[1],
        "Attempt 2/3 failed: network down. Retrying in 4s\u{2026}"
    );
    // the order of what a subscriber sees
    let kinds: Vec<&str> = w.events.iter().map(|e| e.kind()).collect();
    assert_eq!(
        kinds,
        vec![
            "status_change",
            "error",
            "status_change",
            "error",
            "status_change",
            "status_change"
        ]
    );
}

#[test]
fn always_failing_job_is_attempted_max_retries_plus_one_times() {
    for max_retries in [0u32, 1, 3, 5] {
        let mut w = World::new(vec![item("A", 10)]);
        let outcome = w.run("A", max_retries);
        assert_eq!(outcome, Outcome::Failed);
        assert_eq!(w.attempts, max_retries + 1);
        let row = w.row("A").unwrap().clone();
        assert_eq!(row.status, DownloadStatus::Failed);
        assert_eq!(row.error.as_deref(), Some("boom"));
        assert!(row.completed_at.is_some());
        assert_eq!(w.status_changes(DownloadStatus::Failed), 1);
        assert_eq!(w.errors().len() as u32, max_retries + 1);
        assert_eq!(w.errors().last().unwrap(), "boom");
    }
}

#[test]
fn backoff_delays_are_powers_of_two() {
    let mut w = World::new(vec![item("A", 10)]);
    w.run("A", 3);
    assert_eq!(w.slept, vec![2, 4, 8]);
    for n in 1..64u32 {
        assert_eq!(tapedeck::backoff::backoff_delay(n), 1u64 << n);
    }
    assert_eq!(tapedeck::backoff::backoff_delay(0), 1);
    assert_eq!(tapedeck::backoff::backoff_delay(64), u64::MAX);
    assert_eq!(tapedeck::backoff::backoff_delay(u32::MAX), u64::MAX);
}

#[test]
fn dynamic_setting_overrides_the_static_ceiling() {
    let mut w = World::new(vec![item("A", 10)]);
    let req = SetSettingRequest { value: "1".to_string() };
    set_setting(&mut w.settings, "max_download_retries", &req, "2024-01-01T00:00:00Z");
    assert_eq!(w.run("A", 3), Outcome::Failed);
    assert_eq!(w.attempts, 2);

    // a setting that is no number leaves the static ceiling in force
    let mut w = World::new(vec![item("A", 10)]);
    let req = SetSettingRequest { value: "many".to_string() };
    set_setting(&mut w.settings, "max_download_retries", &req, "2024-01-01T00:00:00Z");
    assert_eq!(w.run("A", 3), Outcome::Failed);
    assert_eq!(w.attempts, 4);
}

#[test]
fn cancelled_while_downloading_stays_cancelled_and_loses_the_artifact() {
    let mut w = World::new(vec![item("A", 10)]);
    w.script = vec![Ok("/downloads/A.mp4".to_string())];
    w.cancel_during_attempt = Some(1);
    let outcome = w.run("A", 3);
    assert_eq!(outcome, Outcome::Discarded);
    assert_eq!(w.status("A"), Some(DownloadStatus::Cancelled));
    assert_eq!(w.deleted, vec!["/downloads/A.mp4".to_string()]);
    assert_eq!(w.status_changes(DownloadStatus::Done), 0);
    let row = w.row("A").unwrap().clone();
    assert_eq!(row.output_path, None);
    assert_ne!(row.progress, Progress::full());
}

#[test]
fn cancelled_run_without_artifact_deletes_nothing() {
    let mut w = World::new(vec![item("A", 10)]);
    w.script = vec![Ok(String::new())];
    w.cancel_during_attempt = Some(1);
    assert_eq!(w.run("A", 3), Outcome::Discarded);
    assert!(w.deleted.is_empty());
    assert_eq!(w.status("A"), Some(DownloadStatus::Cancelled));
}

#[test]
fn cancelled_then_failing_run_never_overwrites_the_cancellation() {
    let mut w = World::new(vec![item("A", 10)]);
    w.cancel_during_attempt = Some(1);
    assert_eq!(w.run("A", 1), Outcome::Failed);
    assert_eq!(w.status("A"), Some(DownloadStatus::Cancelled));
    assert_eq!(w.row("A").unwrap().error, None);
}

#[test]
fn success_with_empty_path_stores_no_artifact() {
    let mut w = World::new(vec![item("A", 10)]);
    w.script = vec![Ok(String::new())];
    assert_eq!(w.run("A", 3), Outcome::Done);
    let row = w.row("A").unwrap().clone();
    assert_eq!(row.status, DownloadStatus::Done);
    assert_eq!(row.output_path, None);
}

#[test]
fn a_job_that_is_not_queued_is_not_run() {
    for status in [
        DownloadStatus::Cancelled,
        DownloadStatus::Done,
        DownloadStatus::Failed,
        DownloadStatus::Downloading,
    ] {
        let mut it = item("A", 10);
        it.status = status;
        if status == DownloadStatus::Downloading {
            it.started_at = Some(5);
        }
        let before = format!("{:?}", it);
        let mut w = World::new(vec![it]);
        assert_eq!(w.run("A", 3), Outcome::NotEligible);
        assert_eq!(w.attempts, 0);
        assert!(w.events.is_empty());
        assert_eq!(format!("{:?}", w.row("A").unwrap()), before);
    }
}

#[test]
fn a_job_that_vanished_is_skipped_silently() {
    let mut w = World::new(vec![]);
    assert_eq!(w.run("ghost", 3), Outcome::NotFound);
    assert_eq!(w.attempts, 0);
    assert!(w.events.is_empty());
}

#[test]
fn second_job_waits_for_the_first_with_one_permit() {
    let mut w = World::new(vec![item("A", 10), item("B", 11)]);
    w.script = vec![Ok("/downloads/A.mp4".to_string()), Ok("/downloads/B.mp4".to_string())];
    let mut pool = WorkerPool::new(1);
    pool.submit("A".to_string());
    pool.submit("B".to_string());
    let first = pool.dispatch();
    assert_eq!(first.as_deref(), Some("A"));
    // while A holds the only permit nothing else starts
    assert_eq!(pool.dispatch(), None);
    assert_eq!(pool.running(), 1);
    assert_eq!(pool.waiting(), 1);
    assert_eq!(w.status("B"), Some(DownloadStatus::Queued));
    assert_eq!(w.run("A", 3), Outcome::Done);
    // still held until the end of the job is reported
    assert_eq!(pool.dispatch(), None);
    assert_eq!(w.attempts, 1);
    assert!(pool.finish("A"));
    let second = pool.dispatch();
    assert_eq!(second.as_deref(), Some("B"));
    assert_eq!(w.run("B", 3), Outcome::Done);
    assert!(pool.finish("B"));
    assert_eq!(pool.running(), 0);
    assert_eq!(pool.dispatch(), None);
}

#[test]
fn an_id_never_runs_twice_at_once() {
    let mut pool = WorkerPool::new(4);
    pool.submit("A".to_string());
    pool.submit("A".to_string());
    pool.submit("B".to_string());
    pool.submit("A".to_string());
    assert_eq!(pool.dispatch().as_deref(), Some("A"));
    // the second submission of A waits; B overtakes it
    assert_eq!(pool.dispatch().as_deref(), Some("B"));
    assert_eq!(pool.dispatch(), None);
    assert!(pool.is_running("A"));
    assert!(pool.is_running("B"));
    assert_eq!(pool.running(), 2);
    assert_eq!(pool.waiting(), 2);
    assert!(pool.finish("A"));
    assert!(!pool.is_running("A"));
    // both submissions eventually get their turn, one after the other
    assert_eq!(pool.dispatch().as_deref(), Some("A"));
    assert_eq!(pool.dispatch(), None);
    assert!(pool.finish("A"));
    assert_eq!(pool.dispatch().as_deref(), Some("A"));
    assert!(pool.finish("A"));
    assert!(!pool.finish("A"));
    assert!(pool.finish("B"));
    assert_eq!(pool.waiting(), 0);
    assert_eq!(pool.running(), 0);
}

#[test]
fn a_pool_without_permits_runs_nothing() {
    let mut pool = WorkerPool::new(0);
    pool.submit("A".to_string());
    assert_eq!(pool.dispatch(), None);
    assert_eq!(pool.waiting(), 1);
    assert_eq!(pool.capacity(), 0);
}

#[test]
fn duplicate_submission_of_a_finished_job_is_harmless() {
    let mut w = World::new(vec![item("A", 10)]);
    w.script = vec![Ok("/downloads/A.mp4".to_string())];
    let mut pool = WorkerPool::new(2);
    pool.submit("A".to_string());
    pool.submit("A".to_string());
    assert_eq!(pool.dispatch().as_deref(), Some("A"));
    assert_eq!(pool.dispatch(), None);
    assert_eq!(w.run("A", 3), Outcome::Done);
    pool.finish("A");
    assert_eq!(pool.dispatch().as_deref(), Some("A"));
    assert_eq!(w.run("A", 3), Outcome::NotEligible);
    pool.finish("A");
    assert_eq!(w.attempts, 1);
    assert_eq!(w.status("A"), Some(DownloadStatus::Done));
}

#[test]
fn restart_resets_the_interrupted_item_before_anything_is_submitted() {
    let mut stuck = item("A", 10);
    assert!(stuck.apply(&Update::Start { at: 50 }));
    assert!(stuck.apply(&Update::Progress {
        progress: Progress::from_thousandths(42_500),
        speed: Some("1 MB/s".to_string()),
        eta: None,
    }));
    let mut items = vec![stuck, item("B", 5)];
    let plan = requeue_interrupted(&mut items, 100);
    assert_eq!(plan.resets, vec!["A".to_string()]);
    assert_eq!(plan.events.len(), 1);
    match &plan.events[0] {
        WsEvent::StatusChange { id, status } => {
            assert_eq!(id, "A");
            assert_eq!(*status, DownloadStatus::Queued);
        }
        other => panic!("unexpected event {:?}", other),
    }
    assert_eq!(items[0].status, DownloadStatus::Queued);
    assert_eq!(items[0].started_at, None);
    assert_eq!(items[0].progress, Progress::zero());
    assert!(items[0].is_well_formed());
    // by insertion time: B was added before A
    assert_eq!(plan.submissions, vec!["B".to_string(), "A".to_string()]);

    // the pool takes submissions only after the events of the recovery
    let mut bus: Vec<WsEvent> = Vec::new();
    let mut pool = WorkerPool::new(2);
    for e in plan.events {
        bus.push(e);
    }
    assert_eq!(pool.waiting(), 0);
    for id in plan.submissions {
        pool.submit(id);
    }
    assert_eq!(bus.len(), 1);
    assert_eq!(pool.dispatch().as_deref(), Some("B"));
    assert_eq!(pool.dispatch().as_deref(), Some("A"));
}

#[test]
fn future_item_is_left_to_the_scheduler() {
    let mut items = vec![scheduled("later", 1, 500), item("now", 2), scheduled("past", 3, 50)];
    let plan = requeue_interrupted(&mut items, 100);
    assert!(plan.resets.is_empty());
    assert_eq!(plan.submissions, vec!["now".to_string(), "past".to_string()]);
    // the scheduler does not see it before its time
    assert_eq!(enqueue_scheduled(&items, 100), vec!["past".to_string()]);
    assert_eq!(enqueue_scheduled(&items, 499), vec!["past".to_string()]);
    // and does from its time on
    assert_eq!(
        enqueue_scheduled(&items, 500),
        vec!["later".to_string(), "past".to_string()]
    );
    // an unscheduled item is never the scheduler's business
    assert!(!enqueue_scheduled(&items, i64::MAX).contains(&"now".to_string()));
    // once it runs it is no longer due
    assert!(items[0].apply(&Update::Start { at: 501 }));
    assert_eq!(enqueue_scheduled(&items, 600), vec!["past".to_string()]);
}

#[test]
fn scheduler_orders_by_priority_then_insertion() {
    let mut a = scheduled("a", 30, 1);
    a.priority = 1;
    let mut b = scheduled("b", 10, 1);
    b.priority = 9;
    let mut c = scheduled("c", 20, 1);
    c.priority = 1;
    let mut d = scheduled("d", 5, 1);
    d.priority = 9;
    let items = vec![a, b, c, d];
    assert_eq!(
        enqueue_scheduled(&items, 10),
        vec!["c".to_string(), "a".to_string(), "d".to_string(), "b".to_string()]
    );
    // start-up recovery goes by insertion time alone
    assert_eq!(
        tapedeck::recovery::ready_ids(&items, 10),
        vec!["d".to_string(), "b".to_string(), "c".to_string(), "a".to_string()]
    );
    assert_eq!(tapedeck::recovery::interrupted_ids(&items), Vec::<String>::new());
}

#[test]
fn items_added_at_the_same_time_keep_their_order() {
    let items = vec![item("x", 7), item("y", 7), item("z", 7)];
    assert_eq!(
        tapedeck::recovery::ready_ids(&items, 10),
        vec!["x".to_string(), "y".to_string(), "z".to_string()]
    );
}

#[test]
fn pool_stays_in_shape_through_any_history() {
    let mut pool = WorkerPool::new(2);
    assert!(pool.is_well_formed());
    let ids = ["a", "b", "a", "c", "b", "a"];
    let mut step = 0usize;
    for round in 0..40 {
        match round % 5 {
            0 | 1 => pool.submit(ids[step % ids.len()].to_string()),
            2 | 3 => {
                if let Some(id) = pool.dispatch() {
                    assert!(pool.is_running(&id));
                }
            }
            _ => {
                pool.finish(ids[(step / 2) % ids.len()]);
            }
        }
        step += 1;
        assert!(pool.is_well_formed());
        assert!(pool.running() <= pool.capacity());
    }
}
