//! The episodes of a series, as the downloader program lists them: one line
//! for each, `<name> - <episode>, <channel>, <pid>`.

use crate::pattern::{captures, group, group_text, groups_view, regex_captures};
use crate::progress::opt_text;
use crate::search::{results_view, SearchResult, SearchResultView};
use crate::text::{
    chars_of, find_sub, first_occurrence, has_prefix, lines, lines_spec, lossy_text, push_all,
    rows_of, same_text, starts_with, text_of, trim, trim_spec, trimmed, utf8_lossy,
};
use vstd::prelude::*;

verus! {

/// A line of the listing: the name and episode, the channel, and the
/// programme id at the end.
pub const EPISODE_LINE_PATTERN: &'static str = r"^(.+),\s+([^,]+),\s+([bpm][0-9a-z]{7})\s*$";

/// A series label in front of an episode title: `Series 3 - Title`.
pub const SERIES_PATTERN: &'static str = r"^((?:Series|Season)\s+\d+)\s*[-:]\s*(.+)$";

/// A programme id, alone or as a segment of a URL.
pub const PID_PATTERN: &'static str = r"(?:/|^)([bpm][0-9a-z]{7})(?:[/?#]|$)";

/// The programme id that a query is or contains.
pub fn extract_pid(input: &str) -> (pid: Option<String>)
    ensures
        opt_text(pid) == group(regex_captures(PID_PATTERN@, input@), 1),
{
    group_text(&captures(PID_PATTERN, input), 1)
}

/// Title, series and episode, given the show and what follows it: the rest
/// is the episode, unless it begins with a series label.
pub open spec fn with_rest_spec(
    show: Seq<char>,
    rest: Seq<char>,
    label: Option<Seq<Option<Seq<char>>>>,
) -> (Seq<char>, Option<Seq<char>>, Option<Seq<char>>) {
    match (group(label, 1), group(label, 2)) {
        (Some(series), Some(episode)) => (show, Some(trim_spec(series)), Some(trim_spec(episode))),
        _ => (show, None, Some(rest)),
    }
}

/// Title, series and episode of a name: the show ends at the first `: `, or
/// else at the first ` - `; a name with neither is all title.
pub open spec fn split_name_spec(name: Seq<char>) -> (
    Seq<char>,
    Option<Seq<char>>,
    Option<Seq<char>>,
) {
    match first_occurrence(name, ": "@) {
        Some(i) => {
            let rest = trim_spec(name.skip(i + 2));
            with_rest_spec(trim_spec(name.take(i)), rest, regex_captures(SERIES_PATTERN@, rest))
        },
        None => match first_occurrence(name, " - "@) {
            Some(i) => {
                let rest = trim_spec(name.skip(i + 3));
                with_rest_spec(
                    trim_spec(name.take(i)),
                    rest,
                    regex_captures(SERIES_PATTERN@, rest),
                )
            },
            None => (name, None, None),
        },
    }
}

/// Title, series and episode, given the show, what follows it, and what the
/// series pattern found in that.
pub fn with_rest(show: String, rest: String, label: &Option<Vec<Option<String>>>) -> (r: (
    String,
    Option<String>,
    Option<String>,
))
    ensures
        (r.0@, opt_text(r.1), opt_text(r.2)) == with_rest_spec(show@, rest@, groups_view(*label)),
{
    match (group_text(label, 1), group_text(label, 2)) {
        (Some(series), Some(episode)) => (
            show,
            Some(trimmed(series.as_str())),
            Some(trimmed(episode.as_str())),
        ),
        _ => (show, None, Some(rest)),
    }
}

fn split_at_mark(name: &[char], at: usize, width: usize) -> (r: (String, Option<String>, Option<String>))
    requires
        at + width <= name.len(),
    ensures
        ({
            let rest = trim_spec(name@.skip(at + width));
            (r.0@, opt_text(r.1), opt_text(r.2)) == with_rest_spec(
                trim_spec(name@.take(at as int)),
                rest,
                regex_captures(SERIES_PATTERN@, rest),
            )
        }),
{
    let head = vstd::slice::slice_subrange(name, 0, at);
    let tail = vstd::slice::slice_subrange(name, at + width, name.len());
    assert(head@ =~= name@.take(at as int));
    assert(tail@ =~= name@.skip(at + width));
    let show = text_of(trim(head));
    let rest = text_of(trim(tail));
    let label = captures(SERIES_PATTERN, rest.as_str());
    with_rest(show, rest, &label)
}

/// Title, series and episode of a name.
pub fn split_name(name: &str) -> (r: (String, Option<String>, Option<String>))
    ensures
        (r.0@, opt_text(r.1), opt_text(r.2)) == split_name_spec(name@),
{
    let chars = chars_of(name);
    let colon = chars_of(": ");
    let dash = chars_of(" - ");
    proof {
        reveal_strlit(": ");
        reveal_strlit(" - ");
    }
    match find_sub(chars.as_slice(), colon.as_slice()) {
        Some(i) => split_at_mark(chars.as_slice(), i, 2),
        None => match find_sub(chars.as_slice(), dash.as_slice()) {
            Some(i) => split_at_mark(chars.as_slice(), i, 3),
            None => (name.to_string(), None, None),
        },
    }
}

/// Whether a line of the listing is a remark of the program and no episode.
pub open spec fn is_episode_remark(line: Seq<char>) -> bool {
    line.len() == 0 || has_prefix(line, "INFO:"@) || has_prefix(line, "WARNING:"@) || has_prefix(
        line,
        "ERROR:"@,
    ) || has_prefix(line, "Episodes:"@) || has_prefix(line, "get_iplayer"@)
}

/// The episode that a line describes, given what the line pattern found in
/// it.
pub open spec fn episode_of(found: Option<Seq<Option<Seq<char>>>>, media_type: Seq<char>) -> Option<
    SearchResultView,
> {
    match (group(found, 1), group(found, 2), group(found, 3)) {
        (Some(name), Some(channel), Some(pid)) => {
            let (title, series, episode) = split_name_spec(trim_spec(name));
            Some(
                SearchResultView {
                    pid: trim_spec(pid),
                    title,
                    series,
                    episode,
                    channel: Some(trim_spec(channel)),
                    media_type,
                    ..SearchResultView::blank()
                },
            )
        },
        _ => None,
    }
}

/// The episode that a line of the listing describes.
pub open spec fn episode_row(line: Seq<char>, media_type: Seq<char>) -> Option<SearchResultView> {
    if is_episode_remark(line) {
        None
    } else {
        episode_of(regex_captures(EPISODE_LINE_PATTERN@, line), media_type)
    }
}

/// Whether one of `results` has the programme id `pid`.
pub open spec fn has_pid(results: Seq<SearchResultView>, pid: Seq<char>) -> bool {
    exists|k: int| 0 <= k < results.len() && (#[trigger] results[k]).pid == pid
}

/// The episodes that the lines of a listing describe, in order, each
/// programme id once: of two lines with the same id the first counts.
pub open spec fn episodes(lines: Seq<Seq<char>>, media_type: Seq<char>) -> Seq<SearchResultView>
    decreases lines.len(),
{
    if lines.len() == 0 {
        Seq::empty()
    } else {
        let before = episodes(lines.drop_last(), media_type);
        match episode_row(lines.last(), media_type) {
            Some(row) => if has_pid(before, row.pid) {
                before
            } else {
                before.push(row)
            },
            None => before,
        }
    }
}

/// The episodes that the program listed on standard output followed by
/// standard error.
pub open spec fn parse_pid_recursive_output_spec(
    stdout: Seq<u8>,
    stderr: Seq<u8>,
    media_type: Seq<char>,
) -> Seq<SearchResultView> {
    episodes(lines_spec(lossy_text(stdout) + lossy_text(stderr)), media_type)
}

/// The episode that a line describes, given what the line pattern found in
/// it.
pub fn episode_from(found: &Option<Vec<Option<String>>>, media_type: &str) -> (row: Option<
    SearchResult,
>)
    ensures
        match row {
            Some(r) => episode_of(groups_view(*found), media_type@) == Some(r@),
            None => episode_of(groups_view(*found), media_type@).is_none(),
        },
{
    match (group_text(found, 1), group_text(found, 2), group_text(found, 3)) {
        (Some(name), Some(channel), Some(pid)) => {
            let (title, series, episode) = split_name(trimmed(name.as_str()).as_str());
            let mut row = SearchResult::blank();
            row.pid = trimmed(pid.as_str());
            row.title = title;
            row.series = series;
            row.episode = episode;
            row.channel = Some(trimmed(channel.as_str()));
            row.media_type = media_type.to_string();
            Some(row)
        },
        _ => None,
    }
}

fn episode_remark(line: &[char]) -> (r: bool)
    ensures
        r == is_episode_remark(line@),
{
    line.len() == 0 || starts_with(line, chars_of("INFO:").as_slice()) || starts_with(
        line,
        chars_of("WARNING:").as_slice(),
    ) || starts_with(line, chars_of("ERROR:").as_slice()) || starts_with(
        line,
        chars_of("Episodes:").as_slice(),
    ) || starts_with(line, chars_of("get_iplayer").as_slice())
}

fn knows_pid(results: &Vec<SearchResult>, pid: &str) -> (r: bool)
    ensures
        r == has_pid(results_view(results@), pid@),
{
    let mut k: usize = 0;
    while k < results.len()
        invariant
            k <= results.len(),
            forall|j: int| 0 <= j < k ==> (#[trigger] results_view(results@)[j]).pid != pid@,
        decreases results.len() - k,
    {
        if same_text(results[k].pid.as_str(), pid) {
            assert(results_view(results@)[k as int].pid == pid@);
            return true;
        }
        k += 1;
    }
    false
}

/// Reads the listing of the episodes of a series.
pub fn parse_pid_recursive_output(stdout: &[u8], stderr: &[u8], media_type: &str) -> (results: Vec<
    SearchResult,
>)
    ensures
        results_view(results@) == parse_pid_recursive_output_spec(stdout@, stderr@, media_type@),
{
    let out = utf8_lossy(stdout);
    let err = utf8_lossy(stderr);
    let mut combined = chars_of(out.as_str());
    push_all(&mut combined, &chars_of(err.as_str()));
    let all = lines(combined.as_slice());
    let mut results: Vec<SearchResult> = Vec::new();
    let mut i: usize = 0;
    let ghost rows = rows_of(all@);
    assert(rows.take(0) =~= Seq::empty());
    assert(results_view(results@) =~= Seq::empty());
    while i < all.len()
        invariant
            i <= all.len(),
            rows == rows_of(all@),
            results_view(results@) == episodes(rows.take(i as int), media_type@),
        decreases all.len() - i,
    {
        assert(rows.take(i + 1).drop_last() =~= rows.take(i as int));
        assert(rows.take(i + 1).last() == all@[i as int]@);
        if !episode_remark(all[i].as_slice()) {
            let line = text_of(all[i].as_slice());
            match episode_from(&captures(EPISODE_LINE_PATTERN, line.as_str()), media_type) {
                Some(row) => {
                    if !knows_pid(&results, row.pid.as_str()) {
                        let ghost before = results_view(results@);
                        let ghost added = row@;
                        results.push(row);
                        assert(results_view(results@) =~= before.push(added));
                    }
                },
                None => {},
            }
        }
        i += 1;
    }
    assert(rows.take(i as int) =~= rows);
    results
}

} // verus!
