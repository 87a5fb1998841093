//! The search page of the broadcaster: the programmes that its links name.

use crate::pattern::{
    captures, captures_all, group, group_text, groups_view, matches_view, nth_group_text,
    regex_captures, regex_captures_all, regex_replace_all, regex_replace_first, replace_all,
    replace_first,
};
use crate::progress::opt_text;
use crate::programmes::{extract_redux_image_map, image_for, pairs_view, thumbnail_for};
use crate::search::{results_view, SearchResult, SearchResultView};
use crate::text::{
    chars_of, find_sub, first_occurrence, join, joined, replace_text, replaced,
    rows_of, same_text, strip_prefixes, strip_prefixes_spec, text_of, texts, trim,
    trim_end_char, trim_end_char_spec, trim_spec, words, words_spec,
};
use vstd::prelude::*;

verus! {

/// A link to a television programme, with the programme id and what the
/// link encloses.
pub const TV_LINK_PATTERN: &'static str =
    r#"(?s)<a\s[^>]*href="(?:https://www\.bbc\.co\.uk)?/iplayer/episodes?/([a-z0-9]{8,})[^"]*"[^>]*>(.*?)</a>"#;

/// A link to a radio programme.
pub const RADIO_LINK_PATTERN: &'static str =
    r#"(?s)<a\s[^>]*href="(?:https://www\.bbc\.co\.uk)?/sounds/(?:series|play)/([a-z0-9]{8,})[^"]*"[^>]*>(.*?)</a>"#;

/// A duration inside the text of a link.
pub const DURATION_PATTERN: &'static str = r"Duration:\s*([^.<]+)";

/// An HTML tag.
pub const TAG_PATTERN: &'static str = r"<[^>]+>";

/// The address of the search page for a media type.
pub fn search_url(media_type: &str) -> (url: &'static str)
    ensures
        url@ == if media_type@ == "radio"@ {
            "https://www.bbc.co.uk/sounds/search"@
        } else {
            "https://www.bbc.co.uk/iplayer/search"@
        },
{
    if same_text(media_type, "radio") {
        "https://www.bbc.co.uk/sounds/search"
    } else {
        "https://www.bbc.co.uk/iplayer/search"
    }
}

/// The pattern of the links of a media type.
pub fn link_pattern(media_type: &str) -> (pattern: &'static str)
    ensures
        pattern@ == link_pattern_spec(media_type@),
{
    if same_text(media_type, "radio") {
        RADIO_LINK_PATTERN
    } else {
        TV_LINK_PATTERN
    }
}

pub open spec fn link_pattern_spec(media_type: Seq<char>) -> Seq<char> {
    if media_type == "radio"@ {
        RADIO_LINK_PATTERN@
    } else {
        TV_LINK_PATTERN@
    }
}

/// A text with each run of white space made one blank and none at the ends.
pub open spec fn collapsed(s: Seq<char>) -> Seq<char> {
    joined(words_spec(s), " "@)
}

/// A text with each run of white space made one blank.
pub fn collapse(s: &str) -> (out: String)
    ensures
        out@ == collapsed(s@),
{
    let chars = chars_of(s);
    let parts = words(chars.as_slice());
    let mut strings: Vec<String> = Vec::new();
    let mut i: usize = 0;
    while i < parts.len()
        invariant
            i <= parts.len(),
            strings@.len() == i,
            forall|k: int| 0 <= k < i ==> (#[trigger] strings@[k])@ == parts@[k]@,
        decreases parts.len() - i,
    {
        strings.push(text_of(parts[i].as_slice()));
        i += 1;
    }
    assert(texts(strings@) =~= rows_of(parts@));
    join(&strings, " ")
}

/// What is left of a piece of HTML without its tags.
pub open spec fn strip_html_tags_spec(s: Seq<char>) -> Seq<char> {
    collapsed(regex_replace_all(TAG_PATTERN@, s, " "@))
}

/// Strips the tags of a piece of HTML and collapses its white space.
pub fn strip_html_tags(s: &str) -> (out: String)
    ensures
        out@ == strip_html_tags_spec(s@),
{
    collapse(replace_all(TAG_PATTERN, s, " ").as_str())
}

/// Title and description of the text of a link: the text is cut at
/// ` Description: `, or else behind the first full stop that a blank
/// follows; a text with neither is all title.
pub open spec fn title_and_description_spec(clean: Seq<char>) -> (Seq<char>, Option<Seq<char>>) {
    match first_occurrence(clean, " Description: "@) {
        Some(i) => (
            trim_spec(trim_end_char_spec(clean.take(i), '.')),
            Some(trim_spec(strip_prefixes_spec(clean.skip(i), " Description: "@))),
        ),
        None => match first_occurrence(clean, ". "@) {
            Some(i) => (
                trim_spec(trim_end_char_spec(clean.take(i + 2), '.')),
                Some(trim_spec(clean.skip(i + 2))),
            ),
            None => (trim_spec(clean), None),
        },
    }
}

/// Title and description of the text of a link.
pub fn title_and_description(clean: &str) -> (r: (String, Option<String>))
    ensures
        (r.0@, opt_text(r.1)) == title_and_description_spec(clean@),
{
    let chars = chars_of(clean);
    let s = chars.as_slice();
    let marker = chars_of(" Description: ");
    let stop = chars_of(". ");
    proof {
        reveal_strlit(". ");
    }
    match find_sub(s, marker.as_slice()) {
        Some(i) => {
            let head = vstd::slice::slice_subrange(s, 0, i);
            let tail = vstd::slice::slice_subrange(s, i, s.len());
            assert(head@ =~= clean@.take(i as int));
            assert(tail@ =~= clean@.skip(i as int));
            (
                text_of(trim(trim_end_char(head, '.'))),
                Some(text_of(trim(strip_prefixes(tail, marker.as_slice())))),
            )
        },
        None => match find_sub(s, stop.as_slice()) {
            Some(i) => {
                let head = vstd::slice::slice_subrange(s, 0, i + 2);
                let tail = vstd::slice::slice_subrange(s, i + 2, s.len());
                assert(head@ =~= clean@.take(i + 2));
                assert(tail@ =~= clean@.skip(i + 2));
                (text_of(trim(trim_end_char(head, '.'))), Some(text_of(trim(tail))))
            },
            None => (text_of(trim(s)), None),
        },
    }
}

/// The text of a link once its duration is taken out: ` . ` made `. `, and
/// no white space at the ends.
pub open spec fn cleaned(without_duration: Seq<char>) -> Seq<char> {
    trim_spec(replaced(without_duration, " . "@, ". "@))
}

/// The programme of a link, given the text of the link, what the duration
/// pattern found in it, and the text without the duration: none where no
/// title is left.
pub open spec fn web_row_spec(
    pid: Seq<char>,
    duration: Option<Seq<Option<Seq<char>>>>,
    without_duration: Seq<char>,
    media_type: Seq<char>,
    images: Seq<(Seq<char>, Seq<char>)>,
) -> Option<SearchResultView> {
    let (title, description) = title_and_description_spec(cleaned(without_duration));
    if title.len() == 0 {
        None
    } else {
        Some(
            SearchResultView {
                pid,
                title,
                thumbnail_url: image_for(images, pid),
                duration: match group(duration, 1) {
                    Some(d) => Some(trim_spec(d)),
                    None => None,
                },
                description,
                media_type,
                ..SearchResultView::blank()
            },
        )
    }
}

/// The programme of a link.
pub fn web_row(
    pid: &str,
    duration: &Option<Vec<Option<String>>>,
    without_duration: &str,
    media_type: &str,
    images: &Vec<(String, String)>,
) -> (row: Option<SearchResult>)
    ensures
        match row {
            Some(r) => web_row_spec(
                pid@,
                groups_view(*duration),
                without_duration@,
                media_type@,
                pairs_view(images@),
            ) == Some(r@),
            None => web_row_spec(
                pid@,
                groups_view(*duration),
                without_duration@,
                media_type@,
                pairs_view(images@),
            ).is_none(),
        },
{
    let raw = chars_of(without_duration);
    let fixed = replace_text(raw.as_slice(), chars_of(" . ").as_slice(), &chars_of(". "));
    let clean = text_of(trim(fixed.as_slice()));
    let (title, description) = title_and_description(clean.as_str());
    if title.as_str().is_empty() {
        return None;
    }
    let mut row = SearchResult::blank();
    row.pid = pid.to_string();
    row.title = title;
    row.thumbnail_url = thumbnail_for(images, pid);
    row.duration = match group_text(duration, 1) {
        Some(d) => Some(crate::text::trimmed(d.as_str())),
        None => None,
    };
    row.description = description;
    row.media_type = media_type.to_string();
    Some(row)
}

/// The programme of a link with the given id and content.
pub open spec fn link_row(
    pid: Seq<char>,
    inner: Seq<char>,
    media_type: Seq<char>,
    images: Seq<(Seq<char>, Seq<char>)>,
) -> Option<SearchResultView> {
    let text = strip_html_tags_spec(inner);
    web_row_spec(
        pid,
        regex_captures(DURATION_PATTERN@, text),
        regex_replace_first(DURATION_PATTERN@, text, Seq::empty()),
        media_type,
        images,
    )
}

/// The ids seen and the programmes found in the first `n` links of a page:
/// of the links to one programme only the first counts, also where it gave
/// no programme.
pub open spec fn links_read(
    links: Seq<Seq<Option<Seq<char>>>>,
    n: nat,
    media_type: Seq<char>,
    images: Seq<(Seq<char>, Seq<char>)>,
) -> (Seq<Seq<char>>, Seq<SearchResultView>)
    decreases n,
{
    if n == 0 || n > links.len() {
        (Seq::empty(), Seq::empty())
    } else {
        let (seen, results) = links_read(links, (n - 1) as nat, media_type, images);
        match (group(Some(links[n - 1]), 1), group(Some(links[n - 1]), 2)) {
            (Some(pid), Some(inner)) => if seen.contains(pid) {
                (seen, results)
            } else {
                match link_row(pid, inner, media_type, images) {
                    Some(row) => (seen.push(pid), results.push(row)),
                    None => (seen.push(pid), results),
                }
            },
            _ => (seen, results),
        }
    }
}

/// The programmes of a search page.
pub open spec fn parse_bbc_search_html_spec(html: Seq<char>, media_type: Seq<char>) -> Seq<
    SearchResultView,
> {
    let links = regex_captures_all(link_pattern_spec(media_type), html);
    links_read(links, links.len(), media_type, crate::programmes::extract_redux_image_map_spec(html)).1
}

/// Reads a search page: one programme for each programme id that a link
/// names, with the thumbnail that the page embeds for it.
pub fn parse_bbc_search_html(html: &str, media_type: &str) -> (results: Vec<SearchResult>)
    ensures
        results_view(results@) == parse_bbc_search_html_spec(html@, media_type@),
{
    let images = extract_redux_image_map(html);
    let links = captures_all(link_pattern(media_type), html);
    let mut results: Vec<SearchResult> = Vec::new();
    let mut seen: Vec<String> = Vec::new();
    let mut i: usize = 0;
    let ghost all = matches_view(links@);
    assert(texts(seen@) =~= Seq::empty());
    assert(results_view(results@) =~= Seq::empty());
    while i < links.len()
        invariant
            i <= links.len(),
            all == matches_view(links@),
            all == regex_captures_all(link_pattern_spec(media_type@), html@),
            pairs_view(images@) == crate::programmes::extract_redux_image_map_spec(html@),
            (texts(seen@), results_view(results@)) == links_read(
                all,
                i as nat,
                media_type@,
                pairs_view(images@),
            ),
        decreases links.len() - i,
    {
        match (nth_group_text(&links[i], 1), nth_group_text(&links[i], 2)) {
            (Some(pid), Some(inner)) => {
                if crate::text::position(&seen, pid.as_str()).is_none() {
                    let text = strip_html_tags(inner.as_str());
                    let row = web_row(
                        pid.as_str(),
                        &captures(DURATION_PATTERN, text.as_str()),
                        replace_first(DURATION_PATTERN, text.as_str(), "").as_str(),
                        media_type,
                        &images,
                    );
                    proof {
                        reveal_strlit("");
                        assert(""@ =~= Seq::<char>::empty());
                    }
                    let ghost seen_before = texts(seen@);
                    seen.push(pid);
                    assert(texts(seen@) =~= seen_before.push(pid@));
                    match row {
                        Some(r) => {
                            let ghost before = results_view(results@);
                            let ghost added = r@;
                            results.push(r);
                            assert(results_view(results@) =~= before.push(added));
                        },
                        None => {},
                    }
                }
            },
            _ => {},
        }
        i += 1;
    }
    results
}

} // verus!
