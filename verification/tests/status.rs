use tapedeck::status::DownloadStatus;

const ALL: [DownloadStatus; 5] = [
    DownloadStatus::Queued,
    DownloadStatus::Downloading,
    DownloadStatus::Done,
    DownloadStatus::Failed,
    DownloadStatus::Cancelled,
];

#[test]
fn status_names_are_lower_case() {
    assert_eq!(DownloadStatus::Queued.to_string(), "queued");
    assert_eq!(DownloadStatus::Downloading.to_string(), "downloading");
    assert_eq!(DownloadStatus::Done.to_string(), "done");
    assert_eq!(DownloadStatus::Failed.to_string(), "failed");
    assert_eq!(DownloadStatus::Cancelled.to_string(), "cancelled");
    assert_eq!(DownloadStatus::Failed.as_str(), "failed");
}

#[test]
fn status_names_read_back() {
    for s in ALL {
        assert_eq!(DownloadStatus::from_str(&s.to_string()).unwrap(), s);
    }
}

#[test]
fn unknown_status_is_an_error_with_the_text() {
    for text in ["", "Queued", "queued ", "paused", "DONE"] {
        let e = DownloadStatus::from_str(text).unwrap_err();
        assert_eq!(e.text, text);
        assert_eq!(e.message(), format!("unknown status: {text}"));
    }
}

#[test]
fn terminal_and_retryable_statuses() {
    assert!(!DownloadStatus::Queued.terminal());
    assert!(!DownloadStatus::Downloading.terminal());
    assert!(DownloadStatus::Done.terminal());
    assert!(DownloadStatus::Failed.terminal());
    assert!(DownloadStatus::Cancelled.terminal());
    assert!(!DownloadStatus::Done.retryable());
    assert!(DownloadStatus::Failed.retryable());
    assert!(DownloadStatus::Cancelled.retryable());
    assert!(!DownloadStatus::Queued.retryable());
    assert!(!DownloadStatus::Downloading.retryable());
}
