//! What the programme pages of the broadcaster say: one programme by its id,
//! the label of a series, and the thumbnails embedded in a search page.

use crate::json::{lemma_view_shows_parts, parse_json, parsed_json, path_view, Json, JsonView};
use crate::number::{decimal, decimal_chars, digit_char, digit_of};
use crate::progress::opt_text;
use crate::search::{results_view, SearchResult, SearchResultView};
use crate::text::{
    chars_of, find_sub, first_occurrence, push_all, replace_text, replaced, same_text, text_of,
    trim_start, trim_start_spec,
};
use vstd::prelude::*;

verus! {

/// Where thumbnails are served from.
pub const IMAGE_URL_PREFIX: &'static str = "https://ichef.bbci.co.uk/images/ic/640x360/";

/// The marker for the size in an image URL, and the size put in its
/// place.
pub const RECIPE: &'static str = "{recipe}";

pub const RECIPE_SIZE: &'static str = "480x270";

/// The marker in front of the state that a search page embeds.
pub const STATE_PREFIX: &'static str = "window.__IPLAYER_REDUX_STATE__ =";

/// The URL of the thumbnail with the given image id.
pub open spec fn image_url_spec(image: Seq<char>) -> Seq<char> {
    IMAGE_URL_PREFIX@ + image + ".jpg"@
}

pub fn image_url(image: &str) -> (url: String)
    ensures
        url@ == image_url_spec(image@),
{
    let mut url = IMAGE_URL_PREFIX.to_string();
    url.append(image);
    url.append(".jpg");
    url
}

/// Two decimal digits of a number below 100.
pub open spec fn two_digits(n: nat) -> Seq<char> {
    seq![digit_char(n / 10), digit_char(n % 10)]
}

/// A duration in seconds as `h:mm:ss`, or as `m:ss` below one hour.
pub open spec fn duration_text_spec(seconds: u64) -> Seq<char> {
    let h = (seconds / 3600) as nat;
    let m = ((seconds % 3600) / 60) as nat;
    let s = (seconds % 60) as nat;
    if h > 0 {
        decimal(h) + seq![':'] + two_digits(m) + seq![':'] + two_digits(s)
    } else {
        decimal(m) + seq![':'] + two_digits(s)
    }
}

/// A duration in seconds as text.
pub fn duration_text(seconds: u64) -> (t: String)
    ensures
        t@ == duration_text_spec(seconds),
{
    let h = seconds / 3600;
    let m = (seconds % 3600) / 60;
    let s = seconds % 60;
    let mut out: Vec<char>;
    if h > 0 {
        out = decimal_chars(h);
        out.push(':');
        out.push(digit_of((m / 10) as u8));
        out.push(digit_of((m % 10) as u8));
    } else {
        out = decimal_chars(m);
    }
    out.push(':');
    out.push(digit_of((s / 10) as u8));
    out.push(digit_of((s % 10) as u8));
    assert(out@ =~= duration_text_spec(seconds));
    text_of(out.as_slice())
}

/// A text, unless it is empty.
pub open spec fn non_empty(t: Option<Seq<char>>) -> Option<Seq<char>> {
    match t {
        Some(s) => if s.len() > 0 {
            Some(s)
        } else {
            None
        },
        None => None,
    }
}

fn keep_non_empty(t: Option<String>) -> (r: Option<String>)
    ensures
        opt_text(r) == non_empty(opt_text(t)),
{
    match t {
        Some(s) => if s.as_str().is_empty() {
            None
        } else {
            Some(s)
        },
        None => None,
    }
}

/// What the page of programme `pid` says of it: one result for an episode or
/// a clip, none for anything else, such as a series, whose episodes are
/// listed another way.
pub open spec fn programme_results(doc: JsonView, pid: Seq<char>, media_type: Seq<char>) -> Seq<
    SearchResultView,
> {
    let kind = doc.text_at(seq!["programme"@, "type"@]);
    if kind == Some("episode"@) || kind == Some("clip"@) {
        seq![
            SearchResultView {
                pid,
                title: match doc.text_at(seq!["programme"@, "display_title"@, "title"@]) {
                    Some(t) => t,
                    None => match doc.text_at(seq!["programme"@, "title"@]) {
                        Some(t) => t,
                        None => Seq::empty(),
                    },
                },
                episode: non_empty(
                    doc.text_at(seq!["programme"@, "display_title"@, "subtitle"@]),
                ),
                series: match doc.unsigned_at(
                    seq!["programme"@, "parent"@, "programme"@, "position"@],
                ) {
                    Some(n) => Some(decimal(n as nat)),
                    None => None,
                },
                channel: doc.text_at(seq!["programme"@, "ownership"@, "service"@, "title"@]),
                thumbnail_url: match doc.text_at(seq!["programme"@, "image"@, "pid"@]) {
                    Some(image) => Some(image_url_spec(image)),
                    None => None,
                },
                duration: match doc.unsigned_at(seq!["programme"@, "duration"@]) {
                    Some(d) => Some(duration_text_spec(d)),
                    None => None,
                },
                description: non_empty(doc.text_at(seq!["programme"@, "short_synopsis"@])),
                media_type,
                available_until: None,
            },
        ]
    } else {
        Seq::empty()
    }
}

/// What the page of programme `pid` says of it.
pub fn programme_from(doc: &Json, pid: &str, media_type: &str) -> (results: Vec<SearchResult>)
    ensures
        results_view(results@) == programme_results(doc@, pid@, media_type@),
{
    let mut results: Vec<SearchResult> = Vec::new();
    let kind = doc.text_at(&["programme", "type"]);
    proof {
        assert(path_view(seq!["programme", "type"]) =~= seq!["programme"@, "type"@]);
        assert(path_view(seq!["programme", "display_title", "title"]) =~= seq![
            "programme"@,
            "display_title"@,
            "title"@,
        ]);
        assert(path_view(seq!["programme", "title"]) =~= seq!["programme"@, "title"@]);
        assert(path_view(seq!["programme", "display_title", "subtitle"]) =~= seq![
            "programme"@,
            "display_title"@,
            "subtitle"@,
        ]);
        assert(path_view(seq!["programme", "parent", "programme", "position"]) =~= seq![
            "programme"@,
            "parent"@,
            "programme"@,
            "position"@,
        ]);
        assert(path_view(seq!["programme", "ownership", "service", "title"]) =~= seq![
            "programme"@,
            "ownership"@,
            "service"@,
            "title"@,
        ]);
        assert(path_view(seq!["programme", "image", "pid"]) =~= seq![
            "programme"@,
            "image"@,
            "pid"@,
        ]);
        assert(path_view(seq!["programme", "duration"]) =~= seq!["programme"@, "duration"@]);
        assert(path_view(seq!["programme", "short_synopsis"]) =~= seq![
            "programme"@,
            "short_synopsis"@,
        ]);
    }
    let wanted = match &kind {
        Some(k) => same_text(k.as_str(), "episode") || same_text(k.as_str(), "clip"),
        None => false,
    };
    if !wanted {
        assert(results_view(results@) =~= Seq::empty());
        return results;
    }
    let title = match doc.text_at(&["programme", "display_title", "title"]) {
        Some(t) => t,
        None => match doc.text_at(&["programme", "title"]) {
            Some(t) => t,
            None => String::new(),
        },
    };
    let row = SearchResult {
        pid: pid.to_string(),
        title,
        episode: keep_non_empty(doc.text_at(&["programme", "display_title", "subtitle"])),
        series: match doc.unsigned_at(&["programme", "parent", "programme", "position"]) {
            Some(n) => Some(crate::number::decimal_string(n)),
            None => None,
        },
        channel: doc.text_at(&["programme", "ownership", "service", "title"]),
        thumbnail_url: match doc.text_at(&["programme", "image", "pid"]) {
            Some(image) => Some(image_url(image.as_str())),
            None => None,
        },
        duration: match doc.unsigned_at(&["programme", "duration"]) {
            Some(d) => Some(duration_text(d)),
            None => None,
        },
        description: keep_non_empty(doc.text_at(&["programme", "short_synopsis"])),
        media_type: media_type.to_string(),
        available_until: None,
    };
    let ghost view = row@;
    results.push(row);
    assert(results_view(results@) =~= seq![view]);
    results
}

/// Reads the body of the answer to a look-up of programme `pid`: the
/// results that it holds, or none where the body is no JSON.
pub fn lookup_pid_api(body: &str, pid: &str, media_type: &str) -> (r: Option<Vec<SearchResult>>)
    ensures
        match (parsed_json(body@), r) {
            (Some(doc), Some(results)) => results_view(results@) == programme_results(
                doc,
                pid@,
                media_type@,
            ),
            (None, None) => true,
            _ => false,
        },
{
    match parse_json(body) {
        Some(doc) => Some(programme_from(&doc, pid, media_type)),
        None => None,
    }
}

/// The label and the thumbnail of a series.
#[derive(Clone, Debug)]
pub struct SeriesInfo {
    pub label: Option<String>,
    pub thumbnail_url: Option<String>,
}

/// What the page of a series says of it, as (label, thumbnail): nothing
/// unless the page is that of a series; the label is its title or else
/// `Series` with its position; the thumbnail is its image or else that of
/// the brand above it.
pub open spec fn series_info_spec(doc: JsonView) -> (Option<Seq<char>>, Option<Seq<char>>) {
    if doc.text_at(seq!["programme"@, "type"@]) != Some("series"@) {
        (None, None)
    } else {
        (
            match non_empty(doc.text_at(seq!["programme"@, "title"@])) {
                Some(t) => Some(t),
                None => match doc.unsigned_at(seq!["programme"@, "position"@]) {
                    Some(n) => Some("Series "@ + decimal(n as nat)),
                    None => None,
                },
            },
            match doc.text_at(seq!["programme"@, "image"@, "pid"@]) {
                Some(image) => Some(image_url_spec(image)),
                None => match doc.text_at(
                    seq!["programme"@, "parent"@, "programme"@, "image"@, "pid"@],
                ) {
                    Some(image) => Some(image_url_spec(image)),
                    None => None,
                },
            },
        )
    }
}

impl SeriesInfo {
    pub open spec fn view(self) -> (Option<Seq<char>>, Option<Seq<char>>) {
        (opt_text(self.label), opt_text(self.thumbnail_url))
    }

    /// Nothing known of the series.
    pub fn unknown() -> (info: SeriesInfo)
        ensures
            info.view() == (None::<Seq<char>>, None::<Seq<char>>),
    {
        SeriesInfo { label: None, thumbnail_url: None }
    }
}

/// What the page of a series says of it.
pub fn series_info_from(doc: &Json) -> (info: SeriesInfo)
    ensures
        info.view() == series_info_spec(doc@),
{
    proof {
        assert(path_view(seq!["programme", "type"]) =~= seq!["programme"@, "type"@]);
        assert(path_view(seq!["programme", "title"]) =~= seq!["programme"@, "title"@]);
        assert(path_view(seq!["programme", "position"]) =~= seq!["programme"@, "position"@]);
        assert(path_view(seq!["programme", "image", "pid"]) =~= seq![
            "programme"@,
            "image"@,
            "pid"@,
        ]);
        assert(path_view(seq!["programme", "parent", "programme", "image", "pid"]) =~= seq![
            "programme"@,
            "parent"@,
            "programme"@,
            "image"@,
            "pid"@,
        ]);
    }
    let is_series = match doc.text_at(&["programme", "type"]) {
        Some(k) => same_text(k.as_str(), "series"),
        None => false,
    };
    if !is_series {
        return SeriesInfo::unknown();
    }
    let label = match keep_non_empty(doc.text_at(&["programme", "title"])) {
        Some(t) => Some(t),
        None => match doc.unsigned_at(&["programme", "position"]) {
            Some(n) => {
                let mut text = chars_of("Series ");
                push_all(&mut text, &decimal_chars(n));
                Some(text_of(text.as_slice()))
            },
            None => None,
        },
    };
    let thumbnail_url = match doc.text_at(&["programme", "image", "pid"]) {
        Some(image) => Some(image_url(image.as_str())),
        None => match doc.text_at(&["programme", "parent", "programme", "image", "pid"]) {
            Some(image) => Some(image_url(image.as_str())),
            None => None,
        },
    };
    SeriesInfo { label, thumbnail_url }
}

/// Reads the body of the answer to a look-up of a series; nothing is known
/// where the body is no JSON.
pub fn get_series_label(body: &str) -> (info: SeriesInfo)
    ensures
        info.view() == match parsed_json(body@) {
            Some(doc) => series_info_spec(doc),
            None => (None::<Seq<char>>, None::<Seq<char>>),
        },
{
    match parse_json(body) {
        Some(doc) => series_info_from(&doc),
        None => SeriesInfo::unknown(),
    }
}

/// An episode with what is known of its series filled in where the episode
/// itself says nothing.
pub open spec fn stamped(
    episode: SearchResultView,
    info: (Option<Seq<char>>, Option<Seq<char>>),
) -> SearchResultView {
    SearchResultView {
        series: if episode.series.is_none() {
            info.0
        } else {
            episode.series
        },
        thumbnail_url: if episode.thumbnail_url.is_none() {
            info.1
        } else {
            episode.thumbnail_url
        },
        ..episode
    }
}

/// Fills the label and the thumbnail of the series into every episode that
/// lacks its own.
pub fn stamp_series(episodes: &mut Vec<SearchResult>, info: &SeriesInfo)
    ensures
        final(episodes)@.len() == old(episodes)@.len(),
        forall|i: int|
            0 <= i < old(episodes)@.len() ==> (#[trigger] final(episodes)@[i])@ == stamped(
                old(episodes)@[i]@,
                info.view(),
            ),
{
    let mut i: usize = 0;
    while i < episodes.len()
        invariant
            i <= episodes.len(),
            episodes@.len() == old(episodes)@.len(),
            forall|j: int|
                0 <= j < i ==> (#[trigger] episodes@[j])@ == stamped(
                    old(episodes)@[j]@,
                    info.view(),
                ),
            forall|j: int| i <= j < episodes@.len() ==> episodes@[j] == old(episodes)@[j],
        decreases episodes.len() - i,
    {
        if episodes[i].series.is_none() {
            episodes[i].series = info.label.clone();
        }
        if episodes[i].thumbnail_url.is_none() {
            episodes[i].thumbnail_url = info.thumbnail_url.clone();
        }
        i += 1;
    }
}

/// Where the first JSON object of a text ends: behind the brace that closes
/// the first one opened, braces inside strings not counted; 0 where no
/// object ends.
pub open spec fn object_end_from(
    s: Seq<char>,
    i: int,
    depth: int,
    in_string: bool,
    escape: bool,
) -> int
    decreases s.len() - i,
{
    if i < 0 || i >= s.len() {
        0
    } else if escape {
        object_end_from(s, i + 1, depth, in_string, false)
    } else if s[i] == '\\' && in_string {
        object_end_from(s, i + 1, depth, in_string, true)
    } else if s[i] == '"' {
        object_end_from(s, i + 1, depth, !in_string, false)
    } else if s[i] == '{' && !in_string {
        object_end_from(s, i + 1, depth + 1, in_string, false)
    } else if s[i] == '}' && !in_string {
        if depth == 1 {
            i + 1
        } else {
            object_end_from(s, i + 1, depth - 1, in_string, false)
        }
    } else {
        object_end_from(s, i + 1, depth, in_string, false)
    }
}

/// Where the first JSON object of a text ends, or 0.
pub open spec fn object_end(s: Seq<char>) -> int {
    object_end_from(s, 0, 0, false, false)
}

/// Where the first JSON object of a text ends, or 0.
pub fn find_object_end(s: &[char]) -> (end: usize)
    ensures
        end == object_end(s@),
        end <= s.len(),
{
    let mut depth: i128 = 0;
    let mut in_string = false;
    let mut escape = false;
    let mut i: usize = 0;
    while i < s.len()
        invariant
            i <= s.len(),
            -(i as int) <= depth <= i,
            object_end(s@) == object_end_from(s@, i as int, depth as int, in_string, escape),
        decreases s.len() - i,
    {
        let c = s[i];
        if escape {
            escape = false;
        } else if c == '\\' && in_string {
            escape = true;
        } else if c == '"' {
            in_string = !in_string;
        } else if c == '{' && !in_string {
            depth = depth + 1;
        } else if c == '}' && !in_string {
            if depth == 1 {
                return i + 1;
            }
            depth = depth - 1;
        }
        i += 1;
    }
    0
}

/// The member of an object of images that is used: `standard`, else
/// `promotional_with_logo`, else the first one.
pub open spec fn image_choice(images: JsonView) -> Option<JsonView> {
    match images {
        JsonView::Object(members) => match images.member("standard"@) {
            Some(v) => Some(v),
            None => match images.member("promotional_with_logo"@) {
                Some(v) => Some(v),
                None => if members.len() > 0 {
                    Some(members[0].1)
                } else {
                    None
                },
            },
        },
        _ => None,
    }
}

/// The thumbnail that a value states of itself, as (programme id, URL): it
/// must have a string `id` and an object `images` whose chosen member is a
/// string; the size marker of the URL is filled in.
pub open spec fn own_image(j: JsonView) -> Seq<(Seq<char>, Seq<char>)> {
    match (j.member("id"@), j.member("images"@)) {
        (Some(JsonView::Text(pid)), Some(images)) => match image_choice(images) {
            Some(JsonView::Text(raw)) => seq![(pid, replaced(raw, RECIPE@, RECIPE_SIZE@))],
            _ => Seq::empty(),
        },
        _ => Seq::empty(),
    }
}

/// The thumbnails that a value and everything inside it state, outside
/// first, then member by member.
pub open spec fn images_in(j: JsonView) -> Seq<(Seq<char>, Seq<char>)>
    decreases j, 0nat,
{
    match j {
        JsonView::Object(members) => own_image(j) + images_in_members(members, members.len()),
        JsonView::Array(items) => images_in_items(items, items.len()),
        _ => Seq::empty(),
    }
}

/// The thumbnails inside the first `n` members of an object.
pub open spec fn images_in_members(members: Seq<(Seq<char>, JsonView)>, n: nat) -> Seq<
    (Seq<char>, Seq<char>),
>
    decreases members, n,
{
    if n == 0 || n > members.len() {
        Seq::empty()
    } else {
        images_in_members(members, (n - 1) as nat) + images_in(members[n - 1].1)
    }
}

/// The thumbnails inside the first `n` items of an array.
pub open spec fn images_in_items(items: Seq<JsonView>, n: nat) -> Seq<(Seq<char>, Seq<char>)>
    decreases items, n,
{
    if n == 0 || n > items.len() {
        Seq::empty()
    } else {
        images_in_items(items, (n - 1) as nat) + images_in(items[n - 1])
    }
}

/// The characters of each pair.
pub open spec fn pairs_view(pairs: Seq<(String, String)>) -> Seq<(Seq<char>, Seq<char>)> {
    pairs.map_values(|p: (String, String)| (p.0@, p.1@))
}

fn choose_image(images: &Json) -> (choice: Option<&Json>)
    ensures
        match choice {
            Some(v) => image_choice(images@) == Some(v@),
            None => image_choice(images@).is_none(),
        },
{
    proof {
        lemma_view_shows_parts(*images);
    }
    match images {
        Json::Object(members) => match images.member("standard") {
            Some(v) => Some(v),
            None => match images.member("promotional_with_logo") {
                Some(v) => Some(v),
                None => if members.len() > 0 {
                    Some(&members[0].1)
                } else {
                    None
                },
            },
        },
        _ => None,
    }
}

fn push_own_image(j: &Json, map: &mut Vec<(String, String)>)
    ensures
        pairs_view(final(map)@) == pairs_view(old(map)@) + own_image(j@),
{
    let ghost before = pairs_view(map@);
    match (j.member("id"), j.member("images")) {
        (Some(Json::Text(pid)), Some(images)) => match choose_image(images) {
            Some(Json::Text(raw)) => {
                let url = replace_text(
                    chars_of(raw.as_str()).as_slice(),
                    chars_of(RECIPE).as_slice(),
                    &chars_of(RECIPE_SIZE),
                );
                map.push((pid.clone(), text_of(url.as_slice())));
                assert(pairs_view(map@) =~= before + own_image(j@));
            },
            _ => {
                assert(before + own_image(j@) =~= before);
            },
        },
        _ => {
            assert(before + own_image(j@) =~= before);
        },
    }
}

/// Walks a value and collects the thumbnail of every object that states
/// one, in the order of the walk.
pub fn collect_redux_images(v: &Json, map: &mut Vec<(String, String)>)
    ensures
        pairs_view(final(map)@) == pairs_view(old(map)@) + images_in(v@),
    decreases v,
{
    let ghost start = pairs_view(map@);
    proof {
        lemma_view_shows_parts(*v);
    }
    match v {
        Json::Object(members) => {
            let ghost shown = v@->Object_0;
            push_own_image(v, map);
            let mut i: usize = 0;
            assert(pairs_view(map@) =~= start + (own_image(v@) + images_in_members(shown, 0)));
            while i < members.len()
                invariant
                    i <= members.len(),
                    v matches Json::Object(m) && m == members,
                    v@ == JsonView::Object(shown),
                    shown.len() == members.len(),
                    forall|k: int|
                        0 <= k < shown.len() ==> (#[trigger] shown[k]).1 == members@[k].1@,
                    pairs_view(map@) == start + (own_image(v@) + images_in_members(
                        shown,
                        i as nat,
                    )),
                decreases members.len() - i,
            {
                collect_redux_images(&members[i].1, map);
                assert(shown[i as int].1 == members@[i as int].1@);
                assert(pairs_view(map@) =~= start + (own_image(v@) + images_in_members(
                    shown,
                    (i + 1) as nat,
                )));
                i += 1;
            }
        },
        Json::Array(items) => {
            let ghost shown = v@->Array_0;
            let mut i: usize = 0;
            assert(pairs_view(map@) =~= start + images_in_items(shown, 0));
            while i < items.len()
                invariant
                    i <= items.len(),
                    v matches Json::Array(m) && m == items,
                    v@ == JsonView::Array(shown),
                    shown.len() == items.len(),
                    forall|k: int| 0 <= k < shown.len() ==> #[trigger] shown[k] == items@[k]@,
                    pairs_view(map@) == start + images_in_items(shown, i as nat),
                decreases items.len() - i,
            {
                collect_redux_images(&items[i], map);
                assert(shown[i as int] == items@[i as int]@);
                assert(pairs_view(map@) =~= start + images_in_items(shown, (i + 1) as nat));
                i += 1;
            }
        },
        _ => {
            assert(start + images_in(v@) =~= start);
        },
    }
}

/// The thumbnails that a search page embeds: those of the JSON object that
/// follows the state marker; none where the page has no marker, no object
/// ends behind it, or the object is no JSON.
pub open spec fn extract_redux_image_map_spec(html: Seq<char>) -> Seq<(Seq<char>, Seq<char>)> {
    match first_occurrence(html, STATE_PREFIX@) {
        None => Seq::empty(),
        Some(i) => {
            let tail = trim_start_spec(html.skip(i + STATE_PREFIX@.len()));
            let end = object_end(tail);
            if end == 0 {
                Seq::empty()
            } else {
                match parsed_json(tail.take(end)) {
                    Some(doc) => images_in(doc),
                    None => Seq::empty(),
                }
            }
        },
    }
}

/// The thumbnails that a search page embeds, as pairs of programme id and
/// URL in the order in which the page states them.
pub fn extract_redux_image_map(html: &str) -> (map: Vec<(String, String)>)
    ensures
        pairs_view(map@) == extract_redux_image_map_spec(html@),
{
    let mut map: Vec<(String, String)> = Vec::new();
    assert(pairs_view(map@) =~= Seq::empty());
    let chars = chars_of(html);
    let prefix = chars_of(STATE_PREFIX);
    let start = match find_sub(chars.as_slice(), prefix.as_slice()) {
        Some(i) => i + prefix.len(),
        None => {
            return map;
        },
    };
    let rest = vstd::slice::slice_subrange(chars.as_slice(), start, chars.len());
    assert(rest@ =~= html@.skip(start as int));
    let tail = trim_start(rest);
    let end = find_object_end(tail);
    if end == 0 {
        return map;
    }
    let object = vstd::slice::slice_subrange(tail, 0, end);
    assert(object@ =~= tail@.take(end as int));
    match parse_json(text_of(object).as_str()) {
        Some(doc) => {
            collect_redux_images(&doc, &mut map);
            assert(pairs_view(map@) =~= images_in(doc@));
        },
        None => {},
    }
    map
}

/// The URL stored last for a programme id.
pub open spec fn image_for(pairs: Seq<(Seq<char>, Seq<char>)>, pid: Seq<char>) -> Option<Seq<char>>
    decreases pairs.len(),
{
    if pairs.len() == 0 {
        None
    } else if pairs.last().0 == pid {
        Some(pairs.last().1)
    } else {
        image_for(pairs.drop_last(), pid)
    }
}

/// The thumbnail of a programme: of several stated for one id the last
/// counts.
pub fn thumbnail_for(map: &Vec<(String, String)>, pid: &str) -> (url: Option<String>)
    ensures
        opt_text(url) == image_for(pairs_view(map@), pid@),
{
    let mut i: usize = map.len();
    let ghost all = pairs_view(map@);
    assert(all.take(i as int) =~= all);
    while i > 0
        invariant
            i <= map.len(),
            all == pairs_view(map@),
            image_for(all, pid@) == image_for(all.take(i as int), pid@),
        decreases i,
    {
        i -= 1;
        assert(all.take(i + 1).last() == all[i as int]);
        assert(all.take(i + 1).drop_last() =~= all.take(i as int));
        if same_text(map[i].0.as_str(), pid) {
            return Some(map[i].1.clone());
        }
    }
    None
}

} // verus!
