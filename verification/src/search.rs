//! Programme listings: what a search returns, and how the listing that the
//! downloader program prints is read.

use crate::progress::opt_text;
use crate::text::{
    chars_of, has_prefix, lines, lines_spec, lossy_text, push_all, rows_of, splitn,
    splitn_spec, starts_with, text_of, texts, trim, trim_spec, utf8_lossy,
};
use vstd::prelude::*;

verus! {

/// One programme of a search result.
#[derive(Clone, Debug)]
pub struct SearchResult {
    pub pid: String,
    pub title: String,
    pub series: Option<String>,
    pub episode: Option<String>,
    pub channel: Option<String>,
    pub media_type: String,
    pub thumbnail_url: Option<String>,
    pub available_until: Option<String>,
    pub duration: Option<String>,
    pub description: Option<String>,
}

/// What a [`SearchResult`] holds, as plain values.
pub struct SearchResultView {
    pub pid: Seq<char>,
    pub title: Seq<char>,
    pub series: Option<Seq<char>>,
    pub episode: Option<Seq<char>>,
    pub channel: Option<Seq<char>>,
    pub media_type: Seq<char>,
    pub thumbnail_url: Option<Seq<char>>,
    pub available_until: Option<Seq<char>>,
    pub duration: Option<Seq<char>>,
    pub description: Option<Seq<char>>,
}

impl View for SearchResult {
    type V = SearchResultView;

    open spec fn view(&self) -> SearchResultView {
        SearchResultView {
            pid: self.pid@,
            title: self.title@,
            series: opt_text(self.series),
            episode: opt_text(self.episode),
            channel: opt_text(self.channel),
            media_type: self.media_type@,
            thumbnail_url: opt_text(self.thumbnail_url),
            available_until: opt_text(self.available_until),
            duration: opt_text(self.duration),
            description: opt_text(self.description),
        }
    }
}

impl SearchResultView {
    /// The result in which every text is empty and every option unset.
    pub open spec fn blank() -> SearchResultView {
        SearchResultView {
            pid: Seq::empty(),
            title: Seq::empty(),
            series: None,
            episode: None,
            channel: None,
            media_type: Seq::empty(),
            thumbnail_url: None,
            available_until: None,
            duration: None,
            description: None,
        }
    }
}

impl SearchResult {
    /// The result in which every text is empty and every option unset.
    pub fn blank() -> (r: SearchResult)
        ensures
            r@ == SearchResultView::blank(),
    {
        SearchResult {
            pid: String::new(),
            title: String::new(),
            series: None,
            episode: None,
            channel: None,
            media_type: String::new(),
            thumbnail_url: None,
            available_until: None,
            duration: None,
            description: None,
        }
    }
}

/// The views of a list of results.
pub open spec fn results_view(results: Seq<SearchResult>) -> Seq<SearchResultView> {
    results.map_values(|r: SearchResult| r@)
}

/// The format in which the program is asked to list programmes: eight
/// fields, with `|` between them.
pub const LIST_FORMAT: &'static str =
    "<pid>|<name>|<episode>|<seriesnum>|<channel>|<thumbnail>|<duration>|<desc>";

/// The optional field `i` of a listing row: absent where the row has no such
/// field or the field is empty, else the field without the white space at
/// its ends.
pub open spec fn optional_field(parts: Seq<Seq<char>>, i: int) -> Option<Seq<char>> {
    if 0 <= i < parts.len() && parts[i].len() > 0 {
        Some(trim_spec(parts[i]))
    } else {
        None
    }
}

/// Whether a line of the listing is a remark of the program and no row.
pub open spec fn is_remark(line: Seq<char>) -> bool {
    has_prefix(line, "INFO:"@) || has_prefix(line, "WARNING:"@) || has_prefix(
        line,
        "get_iplayer"@,
    ) || line.len() == 0
}

/// The programme that a line of the listing describes: none for a remark, for
/// a line with fewer than two fields, and for one whose first field is blank.
pub open spec fn listing_row(line: Seq<char>, media_type: Seq<char>) -> Option<SearchResultView> {
    let parts = splitn_spec(line, 8, '|');
    if is_remark(line) || parts.len() < 2 || trim_spec(parts[0]).len() == 0 {
        None
    } else {
        Some(
            SearchResultView {
                pid: trim_spec(parts[0]),
                title: trim_spec(parts[1]),
                episode: optional_field(parts, 2),
                series: optional_field(parts, 3),
                channel: optional_field(parts, 4),
                thumbnail_url: optional_field(parts, 5),
                duration: optional_field(parts, 6),
                description: optional_field(parts, 7),
                media_type,
                available_until: None,
            },
        )
    }
}

/// The programmes that the lines of a listing describe, in order.
pub open spec fn listing(lines: Seq<Seq<char>>, media_type: Seq<char>) -> Seq<SearchResultView>
    decreases lines.len(),
{
    if lines.len() == 0 {
        Seq::empty()
    } else {
        match listing_row(lines.last(), media_type) {
            Some(row) => listing(lines.drop_last(), media_type).push(row),
            None => listing(lines.drop_last(), media_type),
        }
    }
}

/// The programmes that the program listed: the rows of what it wrote to
/// standard output, followed by what it wrote to standard error.
pub open spec fn parse_get_iplayer_output_spec(
    stdout: Seq<u8>,
    stderr: Seq<u8>,
    media_type: Seq<char>,
) -> Seq<SearchResultView> {
    listing(lines_spec(lossy_text(stdout) + lossy_text(stderr)), media_type)
}

fn field_at(parts: &Vec<Vec<char>>, i: usize) -> (f: Option<String>)
    ensures
        opt_text(f) == optional_field(rows_of(parts@), i as int),
{
    if i < parts.len() && parts[i].len() > 0 {
        Some(text_of(trim(parts[i].as_slice())))
    } else {
        None
    }
}

fn remark(line: &[char]) -> (r: bool)
    ensures
        r == is_remark(line@),
{
    starts_with(line, chars_of("INFO:").as_slice()) || starts_with(
        line,
        chars_of("WARNING:").as_slice(),
    ) || starts_with(line, chars_of("get_iplayer").as_slice()) || line.len() == 0
}

/// Reads one line of a listing.
pub fn parse_listing_row(line: &[char], media_type: &str) -> (row: Option<SearchResult>)
    ensures
        match row {
            Some(r) => listing_row(line@, media_type@) == Some(r@),
            None => listing_row(line@, media_type@).is_none(),
        },
{
    if remark(line) {
        return None;
    }
    let parts = splitn(line, 8, '|');
    if parts.len() < 2 {
        return None;
    }
    let pid = trim(parts[0].as_slice());
    if pid.len() == 0 {
        return None;
    }
    Some(
        SearchResult {
            pid: text_of(pid),
            title: text_of(trim(parts[1].as_slice())),
            episode: field_at(&parts, 2),
            series: field_at(&parts, 3),
            channel: field_at(&parts, 4),
            thumbnail_url: field_at(&parts, 5),
            duration: field_at(&parts, 6),
            description: field_at(&parts, 7),
            media_type: media_type.to_string(),
            available_until: None,
        },
    )
}

/// Reads the listing that the program printed in [`LIST_FORMAT`].
pub fn parse_get_iplayer_output(stdout: &[u8], stderr: &[u8], media_type: &str) -> (results: Vec<
    SearchResult,
>)
    ensures
        results_view(results@) == parse_get_iplayer_output_spec(stdout@, stderr@, media_type@),
{
    let out = utf8_lossy(stdout);
    let err = utf8_lossy(stderr);
    let mut combined = chars_of(out.as_str());
    push_all(&mut combined, &chars_of(err.as_str()));
    let all = lines(combined.as_slice());
    let mut results: Vec<SearchResult> = Vec::new();
    let mut i: usize = 0;
    let ghost rows = rows_of(all@);
    assert(rows.take(0) =~= Seq::empty());
    assert(results_view(results@) =~= Seq::empty());
    while i < all.len()
        invariant
            i <= all.len(),
            rows == rows_of(all@),
            results_view(results@) == listing(rows.take(i as int), media_type@),
        decreases all.len() - i,
    {
        assert(rows.take(i + 1).drop_last() =~= rows.take(i as int));
        assert(rows.take(i + 1).last() == all@[i as int]@);
        match parse_listing_row(all[i].as_slice(), media_type) {
            Some(row) => {
                let ghost before = results_view(results@);
                let ghost added = row@;
                results.push(row);
                assert(results_view(results@) =~= before.push(added));
            },
            None => {},
        }
        i += 1;
    }
    assert(rows.take(i as int) =~= rows);
    results
}

/// What a search is started with.
#[derive(Clone, Copy, Debug)]
pub struct SearchOptions<'a> {
    pub query: &'a str,
    pub media_type: &'a str,
    pub get_iplayer_path: &'a str,
    pub cache_dir: &'a str,
    pub proxy: Option<&'a str>,
}

/// What the listing of a series is started with.
#[derive(Clone, Copy, Debug)]
pub struct EpisodesOptions<'a> {
    pub pid: &'a str,
    pub media_type: &'a str,
    pub get_iplayer_path: &'a str,
    pub cache_dir: &'a str,
    pub proxy: Option<&'a str>,
}

/// The arguments that name a proxy: none for an empty one.
pub open spec fn proxy_args_spec(proxy: Option<Seq<char>>) -> Seq<Seq<char>> {
    match proxy {
        Some(p) => if p.len() > 0 {
            seq!["--proxy"@, p]
        } else {
            Seq::empty()
        },
        None => Seq::empty(),
    }
}

fn push_proxy(args: &mut Vec<String>, proxy: Option<&str>)
    ensures
        texts(final(args)@) == texts(old(args)@) + proxy_args_spec(
            match proxy {
                Some(p) => Some(p@),
                None => None,
            },
        ),
{
    let ghost before = texts(args@);
    match proxy {
        Some(p) => {
            if !p.is_empty() {
                args.push("--proxy".to_string());
                args.push(p.to_string());
                assert(texts(args@) =~= before + seq!["--proxy"@, p@]);
            } else {
                assert(texts(args@) =~= before + Seq::<Seq<char>>::empty());
            }
        },
        None => {
            assert(texts(args@) =~= before + Seq::<Seq<char>>::empty());
        },
    }
}

impl<'a> SearchOptions<'a> {
    /// The arguments of a search in the program's local cache, which looks
    /// at episode names and descriptions too.
    pub open spec fn cache_args_spec(self) -> Seq<Seq<char>> {
        seq![
            "--profile-dir"@,
            self.cache_dir@,
            "--listformat"@,
            LIST_FORMAT@,
            "--type"@,
            self.media_type@,
            "--long"@,
            self.query@,
        ] + proxy_args_spec(
            match self.proxy {
                Some(p) => Some(p@),
                None => None,
            },
        )
    }

    /// The arguments of a look-up of one programme id in the local cache.
    pub open spec fn pid_args_spec(self, pid: Seq<char>) -> Seq<Seq<char>> {
        seq![
            "--profile-dir"@,
            self.cache_dir@,
            "--listformat"@,
            LIST_FORMAT@,
            "--type"@,
            self.media_type@,
            "--pid"@,
            pid,
        ] + proxy_args_spec(
            match self.proxy {
                Some(p) => Some(p@),
                None => None,
            },
        )
    }

    pub fn cache_args(&self) -> (args: Vec<String>)
        ensures
            texts(args@) == self.cache_args_spec(),
    {
        let mut args: Vec<String> = Vec::new();
        args.push("--profile-dir".to_string());
        args.push(self.cache_dir.to_string());
        args.push("--listformat".to_string());
        args.push(LIST_FORMAT.to_string());
        args.push("--type".to_string());
        args.push(self.media_type.to_string());
        args.push("--long".to_string());
        args.push(self.query.to_string());
        assert(texts(args@) =~= seq![
            "--profile-dir"@,
            self.cache_dir@,
            "--listformat"@,
            LIST_FORMAT@,
            "--type"@,
            self.media_type@,
            "--long"@,
            self.query@,
        ]);
        push_proxy(&mut args, self.proxy);
        args
    }

    pub fn pid_args(&self, pid: &str) -> (args: Vec<String>)
        ensures
            texts(args@) == self.pid_args_spec(pid@),
    {
        let mut args: Vec<String> = Vec::new();
        args.push("--profile-dir".to_string());
        args.push(self.cache_dir.to_string());
        args.push("--listformat".to_string());
        args.push(LIST_FORMAT.to_string());
        args.push("--type".to_string());
        args.push(self.media_type.to_string());
        args.push("--pid".to_string());
        args.push(pid.to_string());
        assert(texts(args@) =~= seq![
            "--profile-dir"@,
            self.cache_dir@,
            "--listformat"@,
            LIST_FORMAT@,
            "--type"@,
            self.media_type@,
            "--pid"@,
            pid@,
        ]);
        push_proxy(&mut args, self.proxy);
        args
    }
}

impl<'a> EpisodesOptions<'a> {
    /// The arguments that make the program list every episode of a series.
    pub open spec fn args_spec(self) -> Seq<Seq<char>> {
        seq![
            "--profile-dir"@,
            self.cache_dir@,
            "--type"@,
            self.media_type@,
            "--pid"@,
            self.pid@,
            "--pid-recursive"@,
            "--pid-recursive-list"@,
        ] + proxy_args_spec(
            match self.proxy {
                Some(p) => Some(p@),
                None => None,
            },
        )
    }

    pub fn args(&self) -> (args: Vec<String>)
        ensures
            texts(args@) == self.args_spec(),
    {
        let mut args: Vec<String> = Vec::new();
        args.push("--profile-dir".to_string());
        args.push(self.cache_dir.to_string());
        args.push("--type".to_string());
        args.push(self.media_type.to_string());
        args.push("--pid".to_string());
        args.push(self.pid.to_string());
        args.push("--pid-recursive".to_string());
        args.push("--pid-recursive-list".to_string());
        assert(texts(args@) =~= seq![
            "--profile-dir"@,
            self.cache_dir@,
            "--type"@,
            self.media_type@,
            "--pid"@,
            self.pid@,
            "--pid-recursive"@,
            "--pid-recursive-list"@,
        ]);
        push_proxy(&mut args, self.proxy);
        args
    }
}

/// The arguments that make the program refresh its cache for a media type.
pub open spec fn refresh_args_spec(media_type: Seq<char>, cache_dir: Seq<char>) -> Seq<Seq<char>> {
    seq![
        "--profile-dir"@,
        cache_dir,
        "--refresh"@,
        "--type"@,
        media_type,
        "--refresh-future"@,
        "--force"@,
    ]
}

pub fn refresh_args(media_type: &str, cache_dir: &str) -> (args: Vec<String>)
    ensures
        texts(args@) == refresh_args_spec(media_type@, cache_dir@),
{
    let mut args: Vec<String> = Vec::new();
    args.push("--profile-dir".to_string());
    args.push(cache_dir.to_string());
    args.push("--refresh".to_string());
    args.push("--type".to_string());
    args.push(media_type.to_string());
    args.push("--refresh-future".to_string());
    args.push("--force".to_string());
    assert(texts(args@) =~= refresh_args_spec(media_type@, cache_dir@));
    args
}

} // verus!
