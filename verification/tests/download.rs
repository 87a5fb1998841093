use tapedeck::download::{
    quality_value, DownloadLog, DownloadOptions, LineSplitter, Stream, FALLBACK_LINES,
    TAIL_LINES,
};

fn options<'a>() -> DownloadOptions<'a> {
    DownloadOptions {
        pid: "b0000001",
        media_type: "tv",
        quality: "best",
        subtitles: true,
        output_dir: "/downloads",
        get_iplayer_path: "get_iplayer",
        ffmpeg_path: "ffmpeg",
        cache_dir: "/data/iplayer-cache",
        proxy: None,
    }
}

#[test]
fn arguments_of_a_tv_download() {
    assert_eq!(
        options().args(),
        vec![
            "--profile-dir",
            "/data/iplayer-cache",
            "--pid",
            "b0000001",
            "--output",
            "/downloads",
            "--ffmpeg",
            "ffmpeg",
            "--force",
            "--overwrite",
            "--nocopyright",
            "--log-progress",
            "--type",
            "tv",
            "--tv-quality",
            "fhd,hd,sd,web,mobile",
            "--subtitles",
        ]
    );
}

#[test]
fn arguments_of_a_radio_download_through_a_proxy() {
    let mut o = options();
    o.media_type = "radio";
    o.quality = "good";
    o.subtitles = false;
    o.proxy = Some("http://proxy:8080");
    let args = o.args();
    assert_eq!(
        &args[12..],
        ["--type", "radio", "--radio-quality", "standard,low", "--proxy", "http://proxy:8080"]
    );
}

#[test]
fn empty_proxy_is_no_proxy() {
    let mut o = options();
    o.proxy = Some("");
    assert!(!o.args().contains(&"--proxy".to_string()));
    assert_eq!(o.args().len(), 17);
}

#[test]
fn any_other_media_type_is_tv() {
    let mut o = options();
    o.media_type = "Radio";
    let args = o.args();
    assert_eq!(&args[12..16], ["--type", "tv", "--tv-quality", "fhd,hd,sd,web,mobile"]);
}

#[test]
fn quality_names() {
    assert_eq!(quality_value(false, "best"), "fhd,hd,sd,web,mobile");
    assert_eq!(quality_value(false, "good"), "hd,sd,web,mobile");
    assert_eq!(quality_value(false, "worst"), "mobile,web");
    assert_eq!(quality_value(false, "720p"), "720p");
    assert_eq!(quality_value(true, "best"), "high,standard,low");
    assert_eq!(quality_value(true, "good"), "standard,low");
    assert_eq!(quality_value(true, "worst"), "low");
    assert_eq!(quality_value(true, "high"), "high");
    assert_eq!(quality_value(true, ""), "");
}

#[test]
fn splitter_cuts_at_carriage_returns_and_line_feeds() {
    let mut s = LineSplitter::new();
    assert_eq!(s.feed(b"INFO: one\n 5.4% \r10%\r\n\r\nlast"), vec!["INFO: one", "5.4%", "10%"]);
    assert_eq!(s.pending, b"last");
    assert_eq!(s.finish().as_deref(), Some("last"));
    assert!(s.pending.is_empty());
    assert_eq!(s.finish(), None);
}

#[test]
fn splitter_gives_the_same_lines_however_the_stream_is_cut() {
    let stream: &[u8] = b"first line\rsecond\n\n  \nthird \xff\xfe bytes\r\nfourth";
    let mut whole = LineSplitter::new();
    let mut expected = whole.feed(stream);
    expected.extend(whole.finish());
    assert_eq!(expected, vec!["first line", "second", "third \u{fffd}\u{fffd} bytes", "fourth"]);
    for cut in 0..=stream.len() {
        let mut s = LineSplitter::new();
        let mut got = s.feed(&stream[..cut]);
        got.extend(s.feed(&stream[cut..]));
        got.extend(s.finish());
        assert_eq!(got, expected, "cut at {cut}");
    }
    let mut s = LineSplitter::new();
    let mut got = Vec::new();
    for b in stream {
        got.extend(s.feed(&[*b]));
    }
    got.extend(s.finish());
    assert_eq!(got, expected);
}

#[test]
fn splitter_drops_blank_lines() {
    let mut s = LineSplitter::new();
    assert!(s.feed(b"\n\r\n   \n\t\r").is_empty());
    assert_eq!(s.finish(), None);
    let mut s = LineSplitter::new();
    assert!(s.feed(b"   ").is_empty());
    assert_eq!(s.finish(), None);
}

#[test]
fn log_hands_progress_on_and_records_the_rest() {
    let mut log = DownloadLog::new();
    let report = log.record("5.4% of ~2442.31 MB".to_string(), Stream::Stdout).unwrap();
    assert_eq!(report.percent.thousandths, 5_400);
    assert!(log.tail.is_empty());
    assert!(log.record("INFO: starting".to_string(), Stream::Stdout).is_none());
    assert!(log.record("Recorded /downloads/a.mp4".to_string(), Stream::Stderr).is_none());
    assert_eq!(log.output_path, "");
    assert!(log.record("Recorded /downloads/b.mp4".to_string(), Stream::Stdout).is_none());
    assert_eq!(log.output_path, "/downloads/b.mp4");
    assert!(log.record("Recorded /downloads/c.m4a".to_string(), Stream::Stdout).is_none());
    assert_eq!(log.output_path, "/downloads/c.m4a");
    assert_eq!(log.tail.len(), 4);
    assert_eq!(log.outcome(true, Some(0), "b0000001"), Ok("/downloads/c.m4a".to_string()));
}

#[test]
fn log_keeps_the_last_fifty_lines() {
    assert_eq!(TAIL_LINES, 50);
    let mut log = DownloadLog::new();
    for n in 0..120 {
        log.record(format!("line {n}"), Stream::Stderr);
        assert!(log.tail.len() <= 50);
    }
    assert_eq!(log.tail.len(), 50);
    assert_eq!(log.tail[0], "line 70");
    assert_eq!(log.tail[49], "line 119");
}

#[test]
fn failure_quotes_the_alarming_lines() {
    let mut log = DownloadLog::new();
    for line in [
        "INFO: starting",
        "Warning: slow network",
        "WARNING: A UK TV licence is required to access BBC iPlayer TV content legally",
        "ERROR: TV licence is required",
        "error: could not open stream",
        "download Failed",
        "aborting now",
        "INFO: done",
    ] {
        log.record(line.to_string(), Stream::Stderr);
    }
    assert_eq!(
        log.detail(),
        "Warning: slow network\nerror: could not open stream\ndownload Failed\naborting now"
    );
    assert_eq!(
        log.outcome(false, Some(2), "b0000001"),
        Err("get_iplayer exited with status 2 for PID b0000001\nWarning: slow network\nerror: could not open stream\ndownload Failed\naborting now".to_string())
    );
}

#[test]
fn failure_falls_back_on_the_last_five_lines() {
    assert_eq!(FALLBACK_LINES, 5);
    let mut log = DownloadLog::new();
    for n in 1..=7 {
        log.record(format!("INFO: step {n}"), Stream::Stdout);
    }
    assert_eq!(
        log.detail(),
        "INFO: step 3\nINFO: step 4\nINFO: step 5\nINFO: step 6\nINFO: step 7"
    );
    let mut short = DownloadLog::new();
    short.record("only".to_string(), Stream::Stderr);
    assert_eq!(short.detail(), "only");
    assert_eq!(DownloadLog::new().detail(), "");
}

#[test]
fn failure_without_exit_code() {
    let log = DownloadLog::new();
    assert_eq!(
        log.outcome(false, None, "b1"),
        Err("get_iplayer exited with status -1 for PID b1\n".to_string())
    );
    assert_eq!(
        log.outcome(false, Some(i32::MIN), "b1"),
        Err("get_iplayer exited with status -2147483648 for PID b1\n".to_string())
    );
    assert_eq!(
        log.outcome(false, Some(137), "b1"),
        Err("get_iplayer exited with status 137 for PID b1\n".to_string())
    );
    assert_eq!(log.outcome(true, Some(0), "b1"), Ok(String::new()));
}
