use tapedeck::episodes::{extract_pid, parse_pid_recursive_output, split_name};
use tapedeck::programmes::{
    collect_redux_images, duration_text, extract_redux_image_map, find_object_end,
    get_series_label, image_url, lookup_pid_api, stamp_series, thumbnail_for, SeriesInfo,
};
use tapedeck::json::Json;
use tapedeck::search::SearchResult;
use tapedeck::search_flow::{search_step, SearchAction, SearchInput, SearchState};
use tapedeck::text::chars_of;
use tapedeck::websearch::{
    collapse, parse_bbc_search_html, search_url, strip_html_tags, title_and_description,
};

const PAGE: &str = r#"<html><script>window.__IPLAYER_REDUX_STATE__ = {"a":{"id":"m000cs1q","images":{"standard":"https://ichef.bbci.co.uk/images/ic/{recipe}/p07.jpg"}},"list":[{"id":"b0000002","images":{"promotional_with_logo":"https://x/{recipe}/b.jpg","other":"z"}},{"id":"b0000009","images":{"zzz":"https://x/{recipe}/{recipe}.jpg"}},{"id":"q","images":{"standard":5}},{"id":7,"images":{}}],"s":"} {"};</script>
<a class="x" href="/iplayer/episode/m000cs1q/doctor-who-spyfall"><div>Doctor Who<span>. </span></div><p>Description: The Doctor returns.</p> <span>Duration: 60 mins.</span></a>
<a href="https://www.bbc.co.uk/iplayer/episodes/b0000002"><b>The
   Show</b>   . All episodes</a>
<a href="/iplayer/episode/m000cs1q/again">Duplicate</a>
<a href="/iplayer/episode/b0000003/x"><img src="x.png"></a>
<a href="/iplayer/episode/b0000004/x">Only Title</a>
<a href="/sounds/play/m0000005">Radio One</a>
</html>"#;

fn result(pid: &str) -> SearchResult {
    let mut r = SearchResult::blank();
    r.pid = pid.to_string();
    r.title = format!("Title {pid}");
    r
}

#[test]
fn programme_ids_in_queries() {
    assert_eq!(extract_pid("b0000001").as_deref(), Some("b0000001"));
    assert_eq!(
        extract_pid("https://www.bbc.co.uk/iplayer/episode/m000cs1q/doctor-who").as_deref(),
        Some("m000cs1q")
    );
    assert_eq!(
        extract_pid("https://www.bbc.co.uk/programmes/p0000003").as_deref(),
        Some("p0000003")
    );
    assert_eq!(extract_pid("/b0000001?x").as_deref(), Some("b0000001"));
    assert_eq!(extract_pid("m000cs1q#t").as_deref(), Some("m000cs1q"));
    for q in ["doctor who", "b00000012", "B0000001", "xb0000001", ""] {
        assert_eq!(extract_pid(q), None, "{q:?}");
    }
}

#[test]
fn names_split_into_title_series_and_episode() {
    let s = |t: &str, ser: Option<&str>, ep: Option<&str>| {
        (t.to_string(), ser.map(|x| x.to_string()), ep.map(|x| x.to_string()))
    };
    assert_eq!(
        split_name("Doctor Who: Series 12 - Spyfall, Part 1"),
        s("Doctor Who", Some("Series 12"), Some("Spyfall, Part 1"))
    );
    assert_eq!(
        split_name("The Show - Series 2 - The Finale"),
        s("The Show", Some("Series 2"), Some("The Finale"))
    );
    assert_eq!(split_name("Special - A Night Out"), s("Special", None, Some("A Night Out")));
    assert_eq!(split_name("Show: Season 1: Pilot"), s("Show", Some("Season 1"), Some("Pilot")));
    assert_eq!(split_name("Name:  Just an episode "), s("Name", None, Some("Just an episode")));
    assert_eq!(split_name("Just A Title"), s("Just A Title", None, None));
    assert_eq!(split_name("A - B: C"), s("A - B", None, Some("C")));
    assert_eq!(split_name(""), s("", None, None));
}

#[test]
fn episode_listing() {
    let stdout = b"get_iplayer v3.30\nINFO: listing\nEpisodes:\n\
Doctor Who: Series 12 - Spyfall, Part 1, BBC One, m000cs1q\n\
The Show - Series 2 - The Finale, BBC Two, b0000002  \n\
ERROR: something\n\
no pid here, BBC One, x0000007\n";
    let stderr = b"Doctor Who: Series 12 - Again, BBC One, m000cs1q\n\
Just A Title, BBC One, b0000004\nWARNING: x, y, b0000009\n";
    let r = parse_pid_recursive_output(stdout, stderr, "tv");
    assert_eq!(r.len(), 3);
    assert_eq!(r[0].pid, "m000cs1q");
    assert_eq!(r[0].title, "Doctor Who");
    assert_eq!(r[0].series.as_deref(), Some("Series 12"));
    assert_eq!(r[0].episode.as_deref(), Some("Spyfall, Part 1"));
    assert_eq!(r[0].channel.as_deref(), Some("BBC One"));
    assert_eq!(r[0].media_type, "tv");
    assert_eq!(r[0].thumbnail_url, None);
    assert_eq!(r[0].description, None);
    assert_eq!(r[1].pid, "b0000002");
    assert_eq!(r[1].title, "The Show");
    assert_eq!(r[1].series.as_deref(), Some("Series 2"));
    assert_eq!(r[1].episode.as_deref(), Some("The Finale"));
    assert_eq!(r[1].channel.as_deref(), Some("BBC Two"));
    assert_eq!(r[2].pid, "b0000004");
    assert_eq!(r[2].title, "Just A Title");
    assert_eq!(r[2].series, None);
    assert_eq!(r[2].episode, None);
    assert!(parse_pid_recursive_output(b"", b"", "tv").is_empty());
}

#[test]
fn durations_as_text() {
    assert_eq!(duration_text(0), "0:00");
    assert_eq!(duration_text(59), "0:59");
    assert_eq!(duration_text(60), "1:00");
    assert_eq!(duration_text(605), "10:05");
    assert_eq!(duration_text(3599), "59:59");
    assert_eq!(duration_text(3600), "1:00:00");
    assert_eq!(duration_text(3661), "1:01:01");
    assert_eq!(duration_text(360_000), "100:00:00");
    assert_eq!(image_url("p07abc"), "https://ichef.bbci.co.uk/images/ic/640x360/p07abc.jpg");
}

#[test]
fn programme_page_of_an_episode() {
    let body = r#"{"programme":{"type":"episode","pid":"m000cs1q","title":"Spyfall",
      "display_title":{"title":"Doctor Who","subtitle":"Series 12, Spyfall"},
      "short_synopsis":"The Doctor returns.","duration":3600,
      "image":{"pid":"p07abc"},
      "ownership":{"service":{"title":"BBC One"}},
      "parent":{"programme":{"position":12,"type":"series"}}}}"#;
    let r = lookup_pid_api(body, "m000cs1q", "tv").unwrap();
    assert_eq!(r.len(), 1);
    assert_eq!(r[0].pid, "m000cs1q");
    assert_eq!(r[0].title, "Doctor Who");
    assert_eq!(r[0].episode.as_deref(), Some("Series 12, Spyfall"));
    assert_eq!(r[0].series.as_deref(), Some("12"));
    assert_eq!(r[0].channel.as_deref(), Some("BBC One"));
    assert_eq!(r[0].description.as_deref(), Some("The Doctor returns."));
    assert_eq!(r[0].duration.as_deref(), Some("1:00:00"));
    assert_eq!(
        r[0].thumbnail_url.as_deref(),
        Some("https://ichef.bbci.co.uk/images/ic/640x360/p07abc.jpg")
    );
    assert_eq!(r[0].media_type, "tv");
    assert_eq!(r[0].available_until, None);
}

#[test]
fn programme_page_with_little_on_it() {
    let r = lookup_pid_api(
        r#"{"programme":{"type":"clip","title":"Plain","display_title":{"subtitle":""},
            "short_synopsis":"","duration":65.5,"parent":{"programme":{"position":-1}}}}"#,
        "b1",
        "radio",
    )
    .unwrap();
    assert_eq!(r.len(), 1);
    assert_eq!(r[0].title, "Plain");
    assert_eq!(r[0].episode, None);
    assert_eq!(r[0].description, None);
    assert_eq!(r[0].duration, None);
    assert_eq!(r[0].series, None);
    assert_eq!(r[0].channel, None);
    assert_eq!(r[0].thumbnail_url, None);
    let r = lookup_pid_api(r#"{"programme":{"type":"episode"}}"#, "b1", "tv").unwrap();
    assert_eq!(r[0].title, "");
}

#[test]
fn programme_page_of_anything_else_gives_no_result() {
    for body in [
        r#"{"programme":{"type":"series","title":"Series 12"}}"#,
        r#"{"programme":{"type":"brand"}}"#,
        r#"{"programme":{"type":7}}"#,
        r#"{"programme":"episode"}"#,
        r#"{}"#,
        r#"[]"#,
        r#"null"#,
    ] {
        assert_eq!(lookup_pid_api(body, "b1", "tv").unwrap().len(), 0, "{body}");
    }
    assert!(lookup_pid_api("not json", "b1", "tv").is_none());
    assert!(lookup_pid_api("", "b1", "tv").is_none());
    assert!(lookup_pid_api(r#"{"programme":"#, "b1", "tv").is_none());
}

#[test]
fn series_label_and_thumbnail() {
    let info = get_series_label(
        r#"{"programme":{"type":"series","title":"Series 12","position":12,"image":{"pid":"b1"}}}"#,
    );
    assert_eq!(info.label.as_deref(), Some("Series 12"));
    assert_eq!(
        info.thumbnail_url.as_deref(),
        Some("https://ichef.bbci.co.uk/images/ic/640x360/b1.jpg")
    );
    let info = get_series_label(
        r#"{"programme":{"type":"series","title":"","position":3,
            "parent":{"programme":{"image":{"pid":"brand"}}}}}"#,
    );
    assert_eq!(info.label.as_deref(), Some("Series 3"));
    assert_eq!(
        info.thumbnail_url.as_deref(),
        Some("https://ichef.bbci.co.uk/images/ic/640x360/brand.jpg")
    );
    let info = get_series_label(r#"{"programme":{"type":"series"}}"#);
    assert_eq!((info.label, info.thumbnail_url), (None, None));
    for body in [r#"{"programme":{"type":"brand","title":"X","image":{"pid":"p"}}}"#, "{}", "x"] {
        let info = get_series_label(body);
        assert_eq!((info.label, info.thumbnail_url), (None, None), "{body}");
    }
}

#[test]
fn series_is_stamped_onto_episodes_that_lack_it() {
    let mut with = result("b1");
    with.series = Some("Own".to_string());
    with.thumbnail_url = Some("own.jpg".to_string());
    let mut eps = vec![result("b0"), with];
    let info = SeriesInfo { label: Some("Series 2".to_string()), thumbnail_url: None };
    stamp_series(&mut eps, &info);
    assert_eq!(eps[0].series.as_deref(), Some("Series 2"));
    assert_eq!(eps[0].thumbnail_url, None);
    assert_eq!(eps[0].title, "Title b0");
    assert_eq!(eps[1].series.as_deref(), Some("Own"));
    assert_eq!(eps[1].thumbnail_url.as_deref(), Some("own.jpg"));
    let info = SeriesInfo { label: None, thumbnail_url: Some("t.jpg".to_string()) };
    stamp_series(&mut eps, &info);
    assert_eq!(eps[0].series.as_deref(), Some("Series 2"));
    assert_eq!(eps[0].thumbnail_url.as_deref(), Some("t.jpg"));
}

#[test]
fn end_of_the_first_object() {
    let end = |s: &str| find_object_end(&chars_of(s));
    assert_eq!(end("{}"), 2);
    assert_eq!(end("{} {}"), 2);
    assert_eq!(end(r#"{"a":{"b":1}} rest"#), 13);
    assert_eq!(end(r#"{"a":"}"}"#), 9);
    assert_eq!(end(r#"{"a":"\"}"}x"#), 11);
    assert_eq!(end(r#"{"a":"\\"}x"#), 10);
    assert_eq!(end("x = {é} y"), 7);
    assert_eq!(end(""), 0);
    assert_eq!(end("{"), 0);
    assert_eq!(end("no braces"), 0);
    assert_eq!(end(r#"{"open string}"#), 0);
    // a closing brace before any opening one lowers the depth below zero
    assert_eq!(end("}{}"), 0);
    assert_eq!(end("}{{}}"), 4);
}

#[test]
fn thumbnails_embedded_in_a_page() {
    let map = extract_redux_image_map(PAGE);
    let expect: Vec<(String, String)> = vec![
        ("m000cs1q", "https://ichef.bbci.co.uk/images/ic/480x270/p07.jpg"),
        ("b0000002", "https://x/480x270/b.jpg"),
        ("b0000009", "https://x/480x270/480x270.jpg"),
    ]
    .into_iter()
    .map(|(a, b)| (a.to_string(), b.to_string()))
    .collect();
    assert_eq!(map, expect);
    assert_eq!(thumbnail_for(&map, "b0000002").as_deref(), Some("https://x/480x270/b.jpg"));
    assert_eq!(thumbnail_for(&map, "nope"), None);
    assert!(extract_redux_image_map("<html>no state</html>").is_empty());
    assert!(extract_redux_image_map("window.__IPLAYER_REDUX_STATE__ = {").is_empty());
    assert!(extract_redux_image_map("window.__IPLAYER_REDUX_STATE__ = {broken}").is_empty());
    assert!(extract_redux_image_map("window.__IPLAYER_REDUX_STATE__ =").is_empty());
}

#[test]
fn of_two_thumbnails_for_one_id_the_last_counts() {
    let map = extract_redux_image_map(
        r#"window.__IPLAYER_REDUX_STATE__ =   [{"id":"a","images":{"standard":"one"}},
           {"x":{"id":"a","images":{"standard":"two"}}}]"#,
    );
    // an array is no object: nothing ends, nothing is read
    assert!(map.is_empty());
    let map = extract_redux_image_map(
        r#"window.__IPLAYER_REDUX_STATE__ ={"l":[{"id":"a","images":{"standard":"one"}},
           {"x":{"id":"a","images":{"standard":"two"}}}]}"#,
    );
    assert_eq!(map.len(), 2);
    assert_eq!(thumbnail_for(&map, "a").as_deref(), Some("two"));
}

#[test]
fn images_are_collected_outside_first() {
    let leaf = |id: &str, url: &str| {
        Json::Object(vec![
            ("id".to_string(), Json::Text(id.to_string())),
            (
                "images".to_string(),
                Json::Object(vec![("standard".to_string(), Json::Text(url.to_string()))]),
            ),
        ])
    };
    let mut outer = match leaf("outer", "o/{recipe}") {
        Json::Object(m) => m,
        _ => unreachable!(),
    };
    outer.push(("kids".to_string(), Json::Array(vec![leaf("k1", "1"), Json::Null, leaf("k2", "2")])));
    let doc = Json::Object(outer);
    let mut map = vec![("before".to_string(), "b".to_string())];
    collect_redux_images(&doc, &mut map);
    let ids: Vec<&str> = map.iter().map(|p| p.0.as_str()).collect();
    assert_eq!(ids, vec!["before", "outer", "k1", "k2"]);
    assert_eq!(map[1].1, "o/480x270");
    assert_eq!(doc.text_at(&["kids"]), None);
    assert_eq!(doc.text_at(&["id"]).as_deref(), Some("outer"));
    assert_eq!(doc.text_at(&["images", "standard"]).as_deref(), Some("o/{recipe}"));
    assert_eq!(doc.text_at(&[]), None);
    assert!(doc.at(&[]).is_some());
    assert!(doc.member("nope").is_none());
    assert_eq!(doc.unsigned_at(&["id"]), None);
}

#[test]
fn html_without_tags() {
    assert_eq!(strip_html_tags("<b>The\n   Show</b>   . All episodes"), "The Show . All episodes");
    assert_eq!(strip_html_tags("<img src=\"x.png\">"), "");
    assert_eq!(strip_html_tags("a<br/>b"), "a b");
    assert_eq!(strip_html_tags("1 < 2"), "1 < 2");
    assert_eq!(collapse("  a \t\n b  "), "a b");
    assert_eq!(collapse(""), "");
    assert_eq!(collapse(" \n "), "");
    assert_eq!(collapse("one"), "one");
}

#[test]
fn titles_and_descriptions() {
    let td = |t: &str, d: Option<&str>| (t.to_string(), d.map(|x| x.to_string()));
    assert_eq!(
        title_and_description("Doctor Who. Description: The Doctor returns. ."),
        td("Doctor Who", Some("The Doctor returns. ."))
    );
    assert_eq!(title_and_description("The Show. All episodes"), td("The Show.", Some("All episodes")));
    assert_eq!(title_and_description("Only Title"), td("Only Title", None));
    assert_eq!(title_and_description("Ends with a stop."), td("Ends with a stop.", None));
    assert_eq!(
        title_and_description("T... Description:  Description: twice"),
        td("T", Some("twice"))
    );
    assert_eq!(
        title_and_description("T Description: Description: x"),
        td("T", Some("Description: x"))
    );
    assert_eq!(title_and_description(""), td("", None));
}

#[test]
fn search_page_of_television() {
    let r = parse_bbc_search_html(PAGE, "tv");
    assert_eq!(r.len(), 3);
    assert_eq!(r[0].pid, "m000cs1q");
    assert_eq!(r[0].title, "Doctor Who");
    assert_eq!(r[0].description.as_deref(), Some("The Doctor returns. ."));
    assert_eq!(r[0].duration.as_deref(), Some("60 mins"));
    assert_eq!(
        r[0].thumbnail_url.as_deref(),
        Some("https://ichef.bbci.co.uk/images/ic/480x270/p07.jpg")
    );
    assert_eq!(r[0].media_type, "tv");
    assert_eq!(r[0].episode, None);
    assert_eq!(r[0].series, None);
    assert_eq!(r[0].channel, None);
    assert_eq!(r[1].pid, "b0000002");
    assert_eq!(r[1].title, "The Show.");
    assert_eq!(r[1].description.as_deref(), Some("All episodes"));
    assert_eq!(r[1].duration, None);
    assert_eq!(r[1].thumbnail_url.as_deref(), Some("https://x/480x270/b.jpg"));
    assert_eq!(r[2].pid, "b0000004");
    assert_eq!(r[2].title, "Only Title");
    assert_eq!(r[2].description, None);
    assert_eq!(r[2].thumbnail_url, None);
}

#[test]
fn search_page_of_radio() {
    let r = parse_bbc_search_html(PAGE, "radio");
    assert_eq!(r.len(), 1);
    assert_eq!(r[0].pid, "m0000005");
    assert_eq!(r[0].title, "Radio One");
    assert_eq!(r[0].media_type, "radio");
    assert!(parse_bbc_search_html("", "tv").is_empty());
    assert_eq!(search_url("radio"), "https://www.bbc.co.uk/sounds/search");
    assert_eq!(search_url("tv"), "https://www.bbc.co.uk/iplayer/search");
    assert_eq!(search_url("anything"), "https://www.bbc.co.uk/iplayer/search");
}

fn pids(a: &SearchAction) -> Vec<String> {
    match a {
        SearchAction::Finish(Ok(r)) => r.iter().map(|x| x.pid.clone()).collect(),
        other => panic!("{other:?}"),
    }
}

#[test]
fn a_text_query_goes_to_the_web_and_then_to_the_cache() {
    let (s, a) = search_step(SearchState::Idle, SearchInput::Query("doctor who".to_string()));
    assert!(matches!(a, SearchAction::SearchWeb));
    assert!(matches!(s, SearchState::AwaitWeb));
    let (s2, a2) = search_step(s.clone(), SearchInput::Web(Ok(vec![result("b1")])));
    assert!(matches!(s2, SearchState::Done));
    assert_eq!(pids(&a2), vec!["b1"]);
    for web in [Ok(vec![]), Err("timeout".to_string())] {
        let (s2, a2) = search_step(s.clone(), SearchInput::Web(web));
        assert!(matches!(a2, SearchAction::SearchCache));
        let (s3, a3) = search_step(s2.clone(), SearchInput::Cache(Ok(vec![result("c1")])));
        assert!(matches!(s3, SearchState::Done));
        assert_eq!(pids(&a3), vec!["c1"]);
        let (_, a3) = search_step(s2.clone(), SearchInput::Cache(Ok(vec![])));
        assert!(pids(&a3).is_empty());
        let (_, a3) = search_step(s2, SearchInput::Cache(Err("no cache".to_string())));
        assert!(matches!(a3, SearchAction::Finish(Err(m)) if m == "no cache"));
    }
}

#[test]
fn a_programme_id_is_looked_up_first() {
    let (s, a) = search_step(
        SearchState::Idle,
        SearchInput::Query("https://www.bbc.co.uk/iplayer/episode/m000cs1q/x".to_string()),
    );
    assert!(matches!(&a, SearchAction::LookupProgramme { pid } if pid == "m000cs1q"));
    let (s2, a2) = search_step(s.clone(), SearchInput::Programme(Ok(vec![result("m000cs1q")])));
    assert!(matches!(s2, SearchState::Done));
    assert_eq!(pids(&a2), vec!["m000cs1q"]);

    // a series: the page has no result, its episodes are listed
    let (s2, a2) = search_step(s.clone(), SearchInput::Programme(Ok(vec![])));
    assert!(matches!(&a2, SearchAction::ListEpisodes { pid } if pid == "m000cs1q"));
    let info = SeriesInfo { label: Some("Series 1".to_string()), thumbnail_url: None };
    let (s3, a3) = search_step(
        s2.clone(),
        SearchInput::Episodes { listing: Some(Ok(vec![result("e1"), result("e2")])), series: info },
    );
    assert!(matches!(s3, SearchState::Done));
    match &a3 {
        SearchAction::Finish(Ok(r)) => {
            assert_eq!(r.len(), 2);
            assert_eq!(r[0].series.as_deref(), Some("Series 1"));
            assert_eq!(r[1].series.as_deref(), Some("Series 1"));
        }
        other => panic!("{other:?}"),
    }
    // a listing that ran out of time counts as empty
    let (_, a3) = search_step(
        s2.clone(),
        SearchInput::Episodes { listing: None, series: SeriesInfo::unknown() },
    );
    assert!(pids(&a3).is_empty());
    let (_, a3) = search_step(
        s2,
        SearchInput::Episodes {
            listing: Some(Err("spawn failed".to_string())),
            series: SeriesInfo::unknown(),
        },
    );
    assert!(matches!(a3, SearchAction::Finish(Err(m)) if m == "spawn failed"));
}

#[test]
fn a_failed_look_up_falls_back_on_the_cache() {
    let (s, _) = search_step(SearchState::Idle, SearchInput::Query("b0000001".to_string()));
    let (s2, a2) = search_step(s, SearchInput::Programme(Err("HTTP 500".to_string())));
    assert!(matches!(&a2, SearchAction::LookupCachedProgramme { pid } if pid == "b0000001"));
    let (s3, a3) = search_step(s2.clone(), SearchInput::CachedProgramme(Ok(vec![result("b0000001")])));
    assert!(matches!(s3, SearchState::Done));
    assert_eq!(pids(&a3), vec!["b0000001"]);
    let (_, a3) = search_step(s2.clone(), SearchInput::CachedProgramme(Ok(vec![])));
    assert!(matches!(&a3, SearchAction::ListEpisodes { pid } if pid == "b0000001"));
    let (s3, a3) = search_step(s2, SearchInput::CachedProgramme(Err("no program".to_string())));
    assert!(matches!(s3, SearchState::Done));
    assert!(matches!(a3, SearchAction::Finish(Err(m)) if m == "no program"));
}

#[test]
fn an_unexpected_input_changes_nothing() {
    let (s, a) = search_step(SearchState::AwaitWeb, SearchInput::Cache(Ok(vec![])));
    assert!(matches!(s, SearchState::AwaitWeb));
    assert!(matches!(a, SearchAction::Ignore));
    let (s, a) = search_step(SearchState::Done, SearchInput::Query("x".to_string()));
    assert!(matches!(s, SearchState::Done));
    assert!(matches!(a, SearchAction::Ignore));
}
