use tapedeck::error::AppError;
use tapedeck::event::{
    heartbeat, on_progress, progress_event, subscriber_step, Received, SubscriberStep, WsEvent,
    HEARTBEAT_SECONDS,
};
use tapedeck::item::{QueueItem, Update};
use tapedeck::models::{AddQueueItemRequest, CreateUserRequest, QueueQuery, Setting, User};
use tapedeck::progress::{Progress, ProgressUpdate};
use tapedeck::routes::queue::{
    add_to_queue, get_queue_item, is_pending_pid, page_window, paginated, remove_from_queue,
    reorder_queue, retry_queue_item, PageWindow, Removal, ReorderEntry,
};
use tapedeck::routes::search::{EpisodesQuery, SearchQuery};
use tapedeck::routes::settings::{get_setting, set_setting, SetSettingRequest};
use tapedeck::routes::users::{
    change_password, check_new_user, create_user, delete_user, deleted, ChangePasswordRequest,
    UserView,
};
use tapedeck::status::DownloadStatus;

fn item(id: &str, pid: &str) -> QueueItem {
    AddQueueItemRequest::with_defaults(pid.to_string(), "T".to_string()).new_item(
        id.to_string(),
        "u".to_string(),
        1,
    )
}

fn query(page: Option<i64>, per_page: Option<i64>) -> QueueQuery {
    QueueQuery { status: None, page, per_page }
}

#[test]
fn page_window_defaults_and_limits() {
    assert_eq!(page_window(&query(None, None)), PageWindow { page: 1, per_page: 25, offset: 0 });
    assert_eq!(
        page_window(&query(Some(3), Some(10))),
        PageWindow { page: 3, per_page: 10, offset: 20 }
    );
    assert_eq!(
        page_window(&query(Some(0), Some(0))),
        PageWindow { page: 1, per_page: 1, offset: 0 }
    );
    assert_eq!(
        page_window(&query(Some(-7), Some(-1))),
        PageWindow { page: 1, per_page: 1, offset: 0 }
    );
    assert_eq!(
        page_window(&query(Some(2), Some(1000))),
        PageWindow { page: 2, per_page: 100, offset: 100 }
    );
    assert_eq!(
        page_window(&query(Some(i64::MAX), Some(100))),
        PageWindow { page: i64::MAX, per_page: 100, offset: i64::MAX }
    );
    assert_eq!(
        page_window(&query(Some(i64::MAX), Some(1))),
        PageWindow { page: i64::MAX, per_page: 1, offset: i64::MAX - 1 }
    );
}

#[test]
fn pending_programme_blocks_a_second_request() {
    let mut running = item("2", "b2");
    running.apply(&Update::Start { at: 5 });
    let mut done = item("3", "b3");
    done.apply(&Update::Start { at: 5 });
    done.apply(&Update::Complete { at: 6, output_path: None });
    let items = vec![item("1", "b1"), running, done];
    assert!(is_pending_pid(&items, "b1"));
    assert!(is_pending_pid(&items, "b2"));
    assert!(!is_pending_pid(&items, "b3"));
    assert!(!is_pending_pid(&items, "b4"));
    assert!(!is_pending_pid(&Vec::new(), "b1"));
}

#[test]
fn adding_an_item() {
    let req = AddQueueItemRequest::with_defaults("b1".to_string(), "Show".to_string());
    let added = add_to_queue(&req, false, "id-9".to_string(), "u-1".to_string(), 77).unwrap();
    assert_eq!(added.item.id, "id-9");
    assert_eq!(added.item.user_id, "u-1");
    assert_eq!(added.item.added_at, 77);
    assert_eq!(added.item.status, DownloadStatus::Queued);
    assert!(added.submit);
    match &added.event {
        WsEvent::ItemAdded { item } => {
            assert_eq!(format!("{:?}", item), format!("{:?}", added.item));
        }
        other => panic!("{other:?}"),
    }
    assert_eq!(added.event.kind(), "item_added");
    assert_eq!(added.event.subject(), "id-9");
}

#[test]
fn a_scheduled_item_is_not_submitted_at_once() {
    let mut req = AddQueueItemRequest::with_defaults("b1".to_string(), "Show".to_string());
    req.scheduled_at = Some(500);
    let added = add_to_queue(&req, false, "id".to_string(), "u".to_string(), 77).unwrap();
    assert!(!added.submit);
    assert_eq!(added.item.scheduled_at, Some(500));
}

#[test]
fn adding_a_pending_programme_is_a_conflict() {
    let req = AddQueueItemRequest::with_defaults("b1".to_string(), "Show".to_string());
    match add_to_queue(&req, true, "id".to_string(), "u".to_string(), 77) {
        Err(AppError::Conflict(m)) => assert_eq!(m, "PID b1 is already queued"),
        other => panic!("{other:?}"),
    }
}

#[test]
fn removing_cancels_a_running_download_and_deletes_the_rest() {
    let mut running = item("1", "b1");
    running.apply(&Update::Start { at: 5 });
    let (removal, event) = remove_from_queue(Some(&running), 9).unwrap();
    match removal {
        Removal::Cancel { write: Update::Cancel { at } } => assert_eq!(at, 9),
        other => panic!("{other:?}"),
    }
    match event {
        WsEvent::ItemRemoved { id } => assert_eq!(id, "1"),
        other => panic!("{other:?}"),
    }

    let mut done = running.clone();
    done.apply(&Update::Complete { at: 6, output_path: Some("/d/x.mp4".to_string()) });
    match remove_from_queue(Some(&done), 9).unwrap().0 {
        Removal::Delete { artifact } => assert_eq!(artifact.as_deref(), Some("/d/x.mp4")),
        other => panic!("{other:?}"),
    }
    let mut empty = running.clone();
    empty.apply(&Update::Complete { at: 6, output_path: Some(String::new()) });
    match remove_from_queue(Some(&empty), 9).unwrap().0 {
        Removal::Delete { artifact } => assert_eq!(artifact, None),
        other => panic!("{other:?}"),
    }
    match remove_from_queue(Some(&item("q", "b")), 9).unwrap().0 {
        Removal::Delete { artifact } => assert_eq!(artifact, None),
        other => panic!("{other:?}"),
    }
    match remove_from_queue(None, 9) {
        Err(AppError::NotFound) => {}
        other => panic!("{other:?}"),
    }
}

#[test]
fn retry_request() {
    let mut failed = item("1", "b1");
    failed.apply(&Update::Start { at: 5 });
    failed.apply(&Update::Fail { at: 6, error: "x".to_string() });
    let after = retry_queue_item(Some(failed)).unwrap();
    assert_eq!(after.status, DownloadStatus::Queued);
    assert_eq!(after.error, None);
    assert_eq!(after.completed_at, None);

    let mut done = item("1", "b1");
    done.apply(&Update::Start { at: 5 });
    done.apply(&Update::Complete { at: 6, output_path: None });
    let after = retry_queue_item(Some(done)).unwrap();
    assert_eq!(after.status, DownloadStatus::Done);
    assert_eq!(after.completed_at, Some(6));

    assert!(matches!(retry_queue_item(None), Err(AppError::NotFound)));
}

#[test]
fn reordering_gives_one_write_per_entry() {
    let entries = vec![
        ReorderEntry { id: "a".to_string(), priority: 2 },
        ReorderEntry { id: "b".to_string(), priority: -1 },
        ReorderEntry { id: "a".to_string(), priority: 7 },
    ];
    let writes = reorder_queue(&entries);
    assert_eq!(writes.len(), 3);
    let got: Vec<(String, i64)> = writes
        .iter()
        .map(|(id, u)| match u {
            Update::SetPriority { priority } => (id.clone(), *priority),
            other => panic!("{other:?}"),
        })
        .collect();
    assert_eq!(got, vec![("a".to_string(), 2), ("b".to_string(), -1), ("a".to_string(), 7)]);
    assert!(reorder_queue(&Vec::new()).is_empty());
}

#[test]
fn errors_and_their_answers() {
    let cases: Vec<(AppError, u16, &str, &str)> = vec![
        (AppError::Db("disk full".to_string()), 500, "database error", "database error: disk full"),
        (AppError::NotFound, 404, "not found", "not found"),
        (AppError::Unauthorized, 401, "unauthorized", "unauthorized"),
        (AppError::Forbidden, 403, "forbidden", "forbidden"),
        (AppError::BadRequest("no".to_string()), 400, "no", "bad request: no"),
        (AppError::Conflict("dup".to_string()), 409, "dup", "conflict: dup"),
        (AppError::Internal("oops".to_string()), 500, "oops", "internal error: oops"),
        (AppError::Anyhow("deep".to_string()), 500, "deep", "deep"),
    ];
    for (e, code, public, text) in cases {
        assert_eq!(e.status_code(), code);
        assert_eq!(e.public_message(), public);
        assert_eq!(e.to_string(), text);
    }
}

#[test]
fn new_users_are_checked() {
    let req = |u: &str, p: &str| CreateUserRequest { username: u.to_string(), password: p.to_string() };
    assert!(check_new_user(&req("ada", "12345678")).is_ok());
    assert!(create_user(&req("ada", "12345678"), false).is_ok());
    for name in ["", "   ", "\t\n"] {
        match create_user(&req(name, "12345678"), true) {
            Err(AppError::BadRequest(m)) => assert_eq!(m, "username cannot be empty"),
            other => panic!("{other:?}"),
        }
    }
    match create_user(&req("ada", "1234567"), true) {
        Err(AppError::BadRequest(m)) => assert_eq!(m, "password must be at least 8 characters"),
        other => panic!("{other:?}"),
    }
    // the length is counted in bytes
    assert!(check_new_user(&req("ada", "éééé")).is_ok());
    assert!(check_new_user(&req("ada", "ééé")).is_err());
    match create_user(&req("ada", "12345678"), true) {
        Err(AppError::Conflict(m)) => assert_eq!(m, "username 'ada' already exists"),
        other => panic!("{other:?}"),
    }
}

#[test]
fn users_cannot_delete_themselves() {
    match delete_user("u1", "u1") {
        Err(AppError::BadRequest(m)) => assert_eq!(m, "cannot delete yourself"),
        other => panic!("{other:?}"),
    }
    assert!(delete_user("u1", "u2").is_ok());
    assert!(deleted(1).is_ok());
    assert!(matches!(deleted(0), Err(AppError::NotFound)));
}

#[test]
fn users_change_their_own_password_only() {
    let req = |p: &str| ChangePasswordRequest { new_password: p.to_string() };
    assert!(change_password("u1", "u1", &req("12345678")).is_ok());
    assert!(matches!(change_password("u1", "u2", &req("12345678")), Err(AppError::Forbidden)));
    assert!(matches!(change_password("u1", "u2", &req("short")), Err(AppError::Forbidden)));
    match change_password("u1", "u1", &req("short")) {
        Err(AppError::BadRequest(m)) => assert_eq!(m, "password must be at least 8 characters"),
        other => panic!("{other:?}"),
    }
}

#[test]
fn user_view_leaves_the_password_out() {
    let u = User {
        id: "u1".to_string(),
        username: "ada".to_string(),
        password: "$argon2id$...".to_string(),
        created_at: "2024-01-01".to_string(),
        updated_at: "2024-02-02".to_string(),
    };
    let v = UserView::from(u);
    assert_eq!(v.id, "u1");
    assert_eq!(v.username, "ada");
    assert_eq!(v.created_at, "2024-01-01");
    assert!(!format!("{v:?}").contains("argon2id"));
}

#[test]
fn settings_hold_one_row_per_key() {
    let mut table: Vec<Setting> = Vec::new();
    assert_eq!(get_setting(&table, "k"), None);
    let row = set_setting(&mut table, "k", &SetSettingRequest { value: "1".to_string() }, "t1");
    assert_eq!((row.key.as_str(), row.value.as_str(), row.updated_at.as_str()), ("k", "1", "t1"));
    set_setting(&mut table, "other", &SetSettingRequest { value: "x".to_string() }, "t2");
    set_setting(&mut table, "k", &SetSettingRequest { value: "2".to_string() }, "t3");
    assert_eq!(table.len(), 2);
    assert_eq!(get_setting(&table, "k").as_deref(), Some("2"));
    assert_eq!(table[0].updated_at, "t3");
    assert_eq!(get_setting(&table, "other").as_deref(), Some("x"));
    assert_eq!(table[1].updated_at, "t2");
    assert_eq!(get_setting(&table, "K"), None);
}

#[test]
fn queries_become_options() {
    let q = SearchQuery { q: "who".to_string(), media_type: "radio".to_string() };
    let o = q.options("gip", "/c", Some("http://p"));
    assert_eq!(
        (o.query, o.media_type, o.get_iplayer_path, o.cache_dir, o.proxy),
        ("who", "radio", "gip", "/c", Some("http://p"))
    );
    let q = EpisodesQuery { pid: "b1".to_string(), media_type: "tv".to_string() };
    let o = q.options("gip", "/c", None);
    assert_eq!((o.pid, o.media_type, o.get_iplayer_path, o.cache_dir, o.proxy), ("b1", "tv", "gip", "/c", None));
}

#[test]
fn subscribers_survive_lag() {
    assert_eq!(subscriber_step(Received::Event), SubscriberStep::Forward);
    assert_eq!(subscriber_step(Received::Lagged(12)), SubscriberStep::ReportLag(12));
    assert_eq!(subscriber_step(Received::Lagged(u64::MAX)), SubscriberStep::ReportLag(u64::MAX));
    assert_eq!(subscriber_step(Received::Closed), SubscriberStep::Stop);
}

#[test]
fn progress_report_becomes_an_event() {
    let update = ProgressUpdate {
        percent: Progress::from_thousandths(5_400),
        speed: Some("1 MB/s".to_string()),
        eta: None,
        size: Some("10 MB".to_string()),
    };
    match progress_event("id-1", &update) {
        WsEvent::Progress { id, progress, speed, eta } => {
            assert_eq!(id, "id-1");
            assert_eq!(progress.thousandths, 5_400);
            assert_eq!(speed.as_deref(), Some("1 MB/s"));
            assert_eq!(eta, None);
        }
        other => panic!("{other:?}"),
    }
    let kinds: Vec<&str> = vec![
        WsEvent::StatusChange { id: "a".to_string(), status: DownloadStatus::Done },
        WsEvent::ItemRemoved { id: "a".to_string() },
        WsEvent::Error { id: "a".to_string(), message: "m".to_string() },
        progress_event("a", &update),
    ]
    .iter()
    .map(|e| {
        assert_eq!(e.subject(), "a");
        e.kind()
    })
    .collect();
    assert_eq!(kinds, vec!["status_change", "item_removed", "error", "progress"]);
}

#[test]
fn pages_and_single_rows() {
    let w = page_window(&query(Some(2), Some(10)));
    let page = paginated(vec![1u8, 2, 3], 23, w);
    assert_eq!(page.data, vec![1, 2, 3]);
    assert_eq!((page.total, page.page, page.per_page), (23, 2, 10));
    assert_eq!(get_queue_item(Some(item("1", "b1"))).unwrap().id, "1");
    assert!(matches!(get_queue_item(None), Err(AppError::NotFound)));
}

#[test]
fn progress_report_is_stored_and_published() {
    let update = ProgressUpdate {
        percent: Progress::from_thousandths(42_000),
        speed: None,
        eta: Some("00:01".to_string()),
        size: None,
    };
    let (write, event) = on_progress("id-1", &update);
    let mut row = item("id-1", "b1");
    assert!(!row.apply(&write));
    row.apply(&Update::Start { at: 1 });
    assert!(row.apply(&write));
    assert_eq!(row.progress.thousandths, 42_000);
    assert_eq!(row.eta.as_deref(), Some("00:01"));
    assert_eq!(event.kind(), "progress");
    assert_eq!(event.subject(), "id-1");

    assert_eq!(HEARTBEAT_SECONDS, 30);
    for (elapsed, text) in [(0u64, "0m elapsed"), (59, "0m elapsed"), (60, "1m elapsed"), (3_725, "62m elapsed")] {
        match heartbeat("id-1", elapsed) {
            WsEvent::Progress { id, progress, speed, eta } => {
                assert_eq!(id, "id-1");
                assert_eq!(progress, Progress::zero());
                assert_eq!(speed, None);
                assert_eq!(eta.as_deref(), Some(text));
            }
            other => panic!("{other:?}"),
        }
    }
}

#[test]
fn refresh_body_gives_the_arguments() {
    let body = tapedeck::routes::search::RefreshBody { media_type: "radio".to_string() };
    assert_eq!(
        body.args("/cache"),
        vec!["--profile-dir", "/cache", "--refresh", "--type", "radio", "--refresh-future", "--force"]
    );
}
