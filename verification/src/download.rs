//! One invocation of the downloader program: the arguments it is started
//! with, what is kept of its output, and how its end is reported.

use crate::iplayer::{
    extract_output_path, output_path_spec, parse_progress_line, parse_progress_line_spec,
    update_view, OUTPUT_PATTERN,
};
use crate::number::{decimal, decimal_chars};
use crate::pattern::regex_captures;
use crate::progress::ProgressUpdate;
use crate::text::{
    chars_of, has_substring, is_substring, join, joined, lossy_text, push_all, same_text,
    text_of, texts, to_upper, trim, trim_spec, uppercase, utf8_lossy,
};
use vstd::prelude::*;

verus! {

/// What one download is started with.
#[derive(Clone, Copy, Debug)]
pub struct DownloadOptions<'a> {
    pub pid: &'a str,
    /// `"tv"` or `"radio"`.
    pub media_type: &'a str,
    pub quality: &'a str,
    pub subtitles: bool,
    pub output_dir: &'a str,
    pub get_iplayer_path: &'a str,
    pub ffmpeg_path: &'a str,
    pub cache_dir: &'a str,
    pub proxy: Option<&'a str>,
}

/// What the program accepts for a quality name: the friendly names stand for
/// lists that are tried in order, any other name for itself.
pub open spec fn quality_value_spec(radio: bool, quality: Seq<char>) -> Seq<char> {
    if radio {
        if quality == "best"@ {
            "high,standard,low"@
        } else if quality == "good"@ {
            "standard,low"@
        } else if quality == "worst"@ {
            "low"@
        } else {
            quality
        }
    } else {
        if quality == "best"@ {
            "fhd,hd,sd,web,mobile"@
        } else if quality == "good"@ {
            "hd,sd,web,mobile"@
        } else if quality == "worst"@ {
            "mobile,web"@
        } else {
            quality
        }
    }
}

/// What the program accepts for a quality name.
pub fn quality_value(radio: bool, quality: &str) -> (v: String)
    ensures
        v@ == quality_value_spec(radio, quality@),
{
    let best = same_text(quality, "best");
    let good = same_text(quality, "good");
    let worst = same_text(quality, "worst");
    if radio {
        if best {
            "high,standard,low".to_string()
        } else if good {
            "standard,low".to_string()
        } else if worst {
            "low".to_string()
        } else {
            quality.to_string()
        }
    } else {
        if best {
            "fhd,hd,sd,web,mobile".to_string()
        } else if good {
            "hd,sd,web,mobile".to_string()
        } else if worst {
            "mobile,web".to_string()
        } else {
            quality.to_string()
        }
    }
}

impl<'a> DownloadOptions<'a> {
    pub open spec fn is_radio(self) -> bool {
        self.media_type@ == "radio"@
    }

    /// The arguments of the program, in order: the fixed ones, the type, the
    /// quality, then subtitles and a proxy where they are asked for. An empty
    /// proxy counts as none.
    pub open spec fn args_spec(self) -> Seq<Seq<char>> {
        seq![
            "--profile-dir"@,
            self.cache_dir@,
            "--pid"@,
            self.pid@,
            "--output"@,
            self.output_dir@,
            "--ffmpeg"@,
            self.ffmpeg_path@,
            "--force"@,
            "--overwrite"@,
            "--nocopyright"@,
            "--log-progress"@,
            "--type"@,
            if self.is_radio() {
                "radio"@
            } else {
                "tv"@
            },
            if self.is_radio() {
                "--radio-quality"@
            } else {
                "--tv-quality"@
            },
            quality_value_spec(self.is_radio(), self.quality@),
        ] + (if self.subtitles {
            seq!["--subtitles"@]
        } else {
            Seq::empty()
        }) + (match self.proxy {
            Some(p) => if p@.len() > 0 {
                seq!["--proxy"@, p@]
            } else {
                Seq::empty()
            },
            None => Seq::empty(),
        })
    }

    /// The arguments that the program is started with.
    pub fn args(&self) -> (args: Vec<String>)
        ensures
            texts(args@) == self.args_spec(),
    {
        let radio = same_text(self.media_type, "radio");
        let mut args: Vec<String> = Vec::new();
        args.push("--profile-dir".to_string());
        args.push(self.cache_dir.to_string());
        args.push("--pid".to_string());
        args.push(self.pid.to_string());
        args.push("--output".to_string());
        args.push(self.output_dir.to_string());
        args.push("--ffmpeg".to_string());
        args.push(self.ffmpeg_path.to_string());
        args.push("--force".to_string());
        args.push("--overwrite".to_string());
        args.push("--nocopyright".to_string());
        args.push("--log-progress".to_string());
        args.push("--type".to_string());
        args.push(
            if radio {
                "radio".to_string()
            } else {
                "tv".to_string()
            },
        );
        args.push(
            if radio {
                "--radio-quality".to_string()
            } else {
                "--tv-quality".to_string()
            },
        );
        args.push(quality_value(radio, self.quality));
        if self.subtitles {
            args.push("--subtitles".to_string());
        }
        match self.proxy {
            Some(p) => {
                if !p.is_empty() {
                    args.push("--proxy".to_string());
                    args.push(p.to_string());
                }
            },
            None => {},
        }
        assert(texts(args@) =~= self.args_spec());
        args
    }
}

/// Whether a byte ends a line: the program ends progress lines with a
/// carriage return, the others with a line feed.
pub open spec fn is_line_end(b: u8) -> bool {
    b == 13 || b == 10
}

/// The text of one raw line: decoded leniently, without the white space at
/// its ends.
pub open spec fn line_text(raw: Seq<u8>) -> Seq<char> {
    trim_spec(lossy_text(raw))
}

/// `lines` with the text of `raw` behind it, unless that text is empty.
pub open spec fn with_line(lines: Seq<Seq<char>>, raw: Seq<u8>) -> Seq<Seq<char>> {
    if raw.len() > 0 && line_text(raw).len() > 0 {
        lines.push(line_text(raw))
    } else {
        lines
    }
}

/// What is left pending and which lines are complete once `chunk` has come
/// in behind the pending bytes.
pub open spec fn split_spec(pending: Seq<u8>, chunk: Seq<u8>) -> (Seq<u8>, Seq<Seq<char>>)
    decreases chunk.len(),
{
    if chunk.len() == 0 {
        (pending, Seq::empty())
    } else {
        let (p, lines) = split_spec(pending, chunk.drop_last());
        if is_line_end(chunk.last()) {
            (Seq::empty(), with_line(lines, p))
        } else {
            (p.push(chunk.last()), lines)
        }
    }
}

/// Cuts a stream of bytes into lines at carriage returns and line feeds.
#[derive(Clone, Debug)]
pub struct LineSplitter {
    /// The bytes since the last line end.
    pub pending: Vec<u8>,
}

impl LineSplitter {
    pub fn new() -> (s: LineSplitter)
        ensures
            s.pending@.len() == 0,
    {
        LineSplitter { pending: Vec::new() }
    }

    fn flush(&mut self, lines: &mut Vec<String>)
        ensures
            final(self).pending@.len() == 0,
            texts(final(lines)@) == with_line(texts(old(lines)@), old(self).pending@),
    {
        if self.pending.len() > 0 {
            let text = utf8_lossy(self.pending.as_slice());
            let chars = chars_of(text.as_str());
            let kept = trim(chars.as_slice());
            if kept.len() > 0 {
                let ghost before = texts(lines@);
                lines.push(text_of(kept));
                assert(texts(lines@) =~= before.push(line_text(old(self).pending@)));
            }
            self.pending.clear();
        }
    }

    /// Takes the next bytes of the stream and returns the lines that they
    /// complete, in order. Empty lines are dropped.
    pub fn feed(&mut self, chunk: &[u8]) -> (lines: Vec<String>)
        ensures
            (final(self).pending@, texts(lines@)) == split_spec(old(self).pending@, chunk@),
    {
        let mut lines: Vec<String> = Vec::new();
        let mut i: usize = 0;
        assert(chunk@.take(0) =~= Seq::empty());
        assert(texts(lines@) =~= Seq::empty());
        while i < chunk.len()
            invariant
                i <= chunk.len(),
                (self.pending@, texts(lines@)) == split_spec(
                    old(self).pending@,
                    chunk@.take(i as int),
                ),
            decreases chunk.len() - i,
        {
            assert(chunk@.take(i + 1).drop_last() =~= chunk@.take(i as int));
            assert(chunk@.take(i + 1).last() == chunk@[i as int]);
            let b = chunk[i];
            if b == 13 || b == 10 {
                self.flush(&mut lines);
                assert(self.pending@ =~= Seq::empty());
            } else {
                self.pending.push(b);
            }
            i += 1;
        }
        assert(chunk@.take(i as int) =~= chunk@);
        lines
    }

    /// The end of the stream: what is pending is the last line, unless it is
    /// empty.
    pub fn finish(&mut self) -> (last: Option<String>)
        ensures
            final(self).pending@.len() == 0,
            match last {
                Some(line) => with_line(Seq::empty(), old(self).pending@) == seq![line@],
                None => with_line(Seq::empty(), old(self).pending@).len() == 0,
            },
    {
        let mut lines: Vec<String> = Vec::new();
        assert(texts(lines@) =~= Seq::empty());
        self.flush(&mut lines);
        let r = lines.pop();
        proof {
            let w = with_line(Seq::empty(), old(self).pending@);
            if w.len() > 0 {
                assert(w =~= seq![w[0]]);
            }
        }
        r
    }
}

/// Cutting a stream piece by piece gives the lines of cutting it at once.
pub proof fn lemma_split_in_pieces(pending: Seq<u8>, a: Seq<u8>, b: Seq<u8>)
    ensures
        split_spec(pending, a + b) == ({
            let (held, early) = split_spec(pending, a);
            let (left, late) = split_spec(held, b);
            (left, early + late)
        }),
    decreases b.len(),
{
    let (held, early) = split_spec(pending, a);
    if b.len() == 0 {
        assert(a + b =~= a);
        assert(early + Seq::<Seq<char>>::empty() =~= early);
    } else {
        lemma_split_in_pieces(pending, a, b.drop_last());
        assert((a + b).drop_last() =~= a + b.drop_last());
        let (left, late) = split_spec(held, b.drop_last());
        if is_line_end(b.last()) {
            assert(with_line(early + late, left) =~= early + with_line(late, left));
        }
    }
}

/// The lines of output that are kept for the failure report.
pub const TAIL_LINES: usize = 50;

/// The lines of the tail that a failure report falls back on.
pub const FALLBACK_LINES: usize = 5;

/// Where a line of output came from.
#[derive(Clone, Copy, Debug, PartialEq, Eq, Structural)]
pub enum Stream {
    Stdout,
    Stderr,
}

/// What is kept of the output of one invocation.
#[derive(Clone, Debug)]
pub struct DownloadLog {
    /// The recording that the program last named, or empty.
    pub output_path: String,
    /// The last lines that were no progress reports, oldest first.
    pub tail: Vec<String>,
}

pub struct DownloadLogView {
    pub output_path: Seq<char>,
    pub tail: Seq<Seq<char>>,
}

impl View for DownloadLog {
    type V = DownloadLogView;

    open spec fn view(&self) -> DownloadLogView {
        DownloadLogView { output_path: self.output_path@, tail: texts(self.tail@) }
    }
}

/// Whether a line of the tail looks like an error or a warning. The advisory
/// about the TV licence does not.
pub open spec fn is_alarming(line: Seq<char>) -> bool {
    let u = uppercase(line);
    !(is_substring(u, "UK TV LICENCE"@) || is_substring(u, "TV LICENCE IS REQUIRED"@)) && (
    is_substring(u, "ERROR"@) || is_substring(u, "WARNING"@) || is_substring(u, "FAILED"@)
        || is_substring(u, "ABORT"@))
}

/// The alarming lines of `lines`, in order.
pub open spec fn alarming(lines: Seq<Seq<char>>) -> Seq<Seq<char>>
    decreases lines.len(),
{
    if lines.len() == 0 {
        Seq::empty()
    } else if is_alarming(lines.last()) {
        alarming(lines.drop_last()).push(lines.last())
    } else {
        alarming(lines.drop_last())
    }
}

/// The last `n` elements of `lines`, or all of them if there are fewer.
pub open spec fn last_lines(lines: Seq<Seq<char>>, n: int) -> Seq<Seq<char>> {
    if lines.len() > n {
        lines.skip(lines.len() - n)
    } else {
        lines
    }
}

/// The decimal text of a signed number.
pub open spec fn signed_decimal(n: int) -> Seq<char> {
    if n < 0 {
        seq!['-'] + decimal((-n) as nat)
    } else {
        decimal(n as nat)
    }
}

impl DownloadLogView {
    pub open spec fn wf(self) -> bool {
        self.tail.len() <= TAIL_LINES
    }

    /// The log after one more line: a progress report changes nothing; any
    /// other line joins the tail, which drops its oldest line once it holds
    /// more than [`TAIL_LINES`], and on standard output it may name the
    /// recording.
    pub open spec fn record(self, line: Seq<char>, from: Stream) -> DownloadLogView {
        if parse_progress_line_spec(line).is_some() {
            self
        } else {
            let longer = self.tail.push(line);
            DownloadLogView {
                output_path: match output_path_spec(regex_captures(OUTPUT_PATTERN@, line)) {
                    Some(path) => if from == Stream::Stdout {
                        path
                    } else {
                        self.output_path
                    },
                    None => self.output_path,
                },
                tail: if longer.len() > TAIL_LINES {
                    longer.drop_first()
                } else {
                    longer
                },
            }
        }
    }

    /// What a failure report quotes: the alarming lines of the tail, or its
    /// last lines where none is alarming; one line each.
    pub open spec fn detail(self) -> Seq<char> {
        if alarming(self.tail).len() > 0 {
            joined(alarming(self.tail), "\n"@)
        } else {
            joined(last_lines(self.tail, FALLBACK_LINES as int), "\n"@)
        }
    }

    /// The message of a failed invocation. An exit without a code is reported
    /// as -1.
    pub open spec fn failure_message(self, code: Option<i32>, pid: Seq<char>) -> Seq<char> {
        "get_iplayer exited with status "@ + signed_decimal(
            match code {
                Some(c) => c as int,
                None => -1,
            },
        ) + " for PID "@ + pid + "\n"@ + self.detail()
    }

    /// How the invocation ended: the recording, or the failure message.
    pub open spec fn outcome(self, success: bool, code: Option<i32>, pid: Seq<char>) -> Result<
        Seq<char>,
        Seq<char>,
    > {
        if success {
            Ok(self.output_path)
        } else {
            Err(self.failure_message(code, pid))
        }
    }
}

fn alarming_line(line: &str) -> (r: bool)
    ensures
        r == is_alarming(line@),
{
    let upper = to_upper(line);
    let u = chars_of(upper.as_str());
    let u = u.as_slice();
    if has_substring(u, chars_of("UK TV LICENCE").as_slice()) || has_substring(
        u,
        chars_of("TV LICENCE IS REQUIRED").as_slice(),
    ) {
        return false;
    }
    has_substring(u, chars_of("ERROR").as_slice()) || has_substring(
        u,
        chars_of("WARNING").as_slice(),
    ) || has_substring(u, chars_of("FAILED").as_slice()) || has_substring(
        u,
        chars_of("ABORT").as_slice(),
    )
}

fn signed_decimal_chars(n: i32) -> (out: Vec<char>)
    ensures
        out@ == signed_decimal(n as int),
{
    if n < 0 {
        let mut out: Vec<char> = Vec::new();
        out.push('-');
        let magnitude: u64 = (-(n as i64)) as u64;
        push_all(&mut out, &decimal_chars(magnitude));
        out
    } else {
        decimal_chars(n as u64)
    }
}

impl DownloadLog {
    pub open spec fn wf(&self) -> bool {
        self@.wf()
    }

    /// The log of an invocation that has printed nothing yet.
    pub fn new() -> (log: DownloadLog)
        ensures
            log@ == (DownloadLogView { output_path: Seq::empty(), tail: Seq::empty() }),
            log.wf(),
    {
        let log = DownloadLog { output_path: String::new(), tail: Vec::new() };
        assert(texts(log.tail@) =~= Seq::empty());
        log
    }

    /// Takes one line of output. A progress report is handed back for the
    /// caller to pass on; any other line is recorded.
    pub fn record(&mut self, line: String, from: Stream) -> (report: Option<ProgressUpdate>)
        requires
            old(self).wf(),
        ensures
            update_view(report) == parse_progress_line_spec(line@),
            report matches Some(u) ==> u.percent.wf(),
            final(self)@ == old(self)@.record(line@, from),
            final(self).wf(),
    {
        let report = parse_progress_line(line.as_str());
        if report.is_some() {
            return report;
        }
        if from == Stream::Stdout {
            match extract_output_path(line.as_str()) {
                Some(path) => {
                    self.output_path = path;
                },
                None => {},
            }
        }
        let ghost longer = texts(self.tail@).push(line@);
        self.tail.push(line);
        assert(texts(self.tail@) =~= longer);
        if self.tail.len() > TAIL_LINES {
            self.tail.remove(0);
            assert(texts(self.tail@) =~= longer.drop_first());
        }
        None
    }

    /// What a failure report quotes of the output.
    pub fn detail(&self) -> (d: String)
        ensures
            d@ == self@.detail(),
    {
        let mut picked: Vec<String> = Vec::new();
        let mut i: usize = 0;
        let ghost all = texts(self.tail@);
        assert(all.take(0) =~= Seq::empty());
        assert(texts(picked@) =~= Seq::empty());
        while i < self.tail.len()
            invariant
                i <= self.tail.len(),
                all == texts(self.tail@),
                texts(picked@) == alarming(all.take(i as int)),
            decreases self.tail.len() - i,
        {
            assert(all.take(i + 1).drop_last() =~= all.take(i as int));
            assert(all.take(i + 1).last() == self.tail@[i as int]@);
            if alarming_line(self.tail[i].as_str()) {
                let ghost before = texts(picked@);
                picked.push(self.tail[i].clone());
                assert(texts(picked@) =~= before.push(self.tail@[i as int]@));
            }
            i += 1;
        }
        assert(all.take(i as int) =~= all);
        if picked.len() == 0 {
            let mut k: usize = if self.tail.len() > FALLBACK_LINES {
                self.tail.len() - FALLBACK_LINES
            } else {
                0
            };
            let start = k;
            while k < self.tail.len()
                invariant
                    start <= k <= self.tail.len(),
                    all == texts(self.tail@),
                    texts(picked@) == all.subrange(start as int, k as int),
                decreases self.tail.len() - k,
            {
                let ghost before = texts(picked@);
                picked.push(self.tail[k].clone());
                assert(texts(picked@) =~= before.push(self.tail@[k as int]@));
                assert(all.subrange(start as int, k + 1) =~= all.subrange(
                    start as int,
                    k as int,
                ).push(all[k as int]));
                k += 1;
            }
            assert(all.subrange(start as int, all.len() as int) =~= last_lines(
                all,
                FALLBACK_LINES as int,
            ));
        }
        join(&picked, "\n")
    }

    /// How the invocation ended once the program has exited: the recording
    /// (empty where none was named), or the failure message.
    pub fn outcome(&self, success: bool, code: Option<i32>, pid: &str) -> (r: Result<
        String,
        String,
    >)
        ensures
            match r {
                Ok(path) => self@.outcome(success, code, pid@) == Ok::<Seq<char>, Seq<char>>(
                    path@,
                ),
                Err(message) => self@.outcome(success, code, pid@) == Err::<
                    Seq<char>,
                    Seq<char>,
                >(message@),
            },
    {
        if success {
            return Ok(self.output_path.clone());
        }
        let shown: i32 = match code {
            Some(c) => c,
            None => -1,
        };
        let mut out = chars_of("get_iplayer exited with status ");
        push_all(&mut out, &signed_decimal_chars(shown));
        push_all(&mut out, &chars_of(" for PID "));
        push_all(&mut out, &chars_of(pid));
        push_all(&mut out, &chars_of("\n"));
        push_all(&mut out, &chars_of(self.detail().as_str()));
        Err(text_of(out.as_slice()))
    }
}

} // verus!
