//! What the downloader program prints, read line by line: progress reports
//! and the location of the finished recording.

use crate::number::{decimal, decimal_chars, digit_char, digit_of, digits_within, parse_digits};
use crate::pattern::{captures, group, group_text, groups_view, regex_captures};
use crate::progress::{decimal_progress, opt_text, Progress, ProgressUpdate, ProgressUpdateView};
use crate::text::{chars_of, push_all, text_of, trim_spec, trimmed};
use vstd::prelude::*;

verus! {

/// A percentage: `5.4%`.
pub const PERCENT_PATTERN: &'static str = r"(\d+\.?\d*)%";

/// A transfer speed: `97.8 Mb/s`, `3.45 MiB/s`.
pub const SPEED_PATTERN: &'static str = r"([\d.]+\s*(?:[KMGT]i?[Bb])/s)";

/// The remaining time: `ETA: 00:03:09`, `ETA 00:00:15`.
pub const ETA_PATTERN: &'static str = r"ETA:?\s+([\d:]+)";

/// A size: `~2442.31 MB`, `12.34 MiB`.
pub const SIZE_PATTERN: &'static str = r"~?([\d.]+\s*(?:[KMGT]i?[Bb]))\b";

/// A statistics line of ffmpeg, with the size in kB, the time and the speed.
pub const FFMPEG_PATTERN: &'static str =
    r"frame=\s*\d+.*?size=\s*(\d+)kB\s+time=([\d:\.]+).*?speed=\s*([\d.Na/]+)x?";

/// The path of a recording, by its file extension.
pub const OUTPUT_PATTERN: &'static str = r"(?:INFO:|Recorded)\s+(.+\.(?:mp4|m4v|mp3|m4a|aac|ts))";

/// The largest size in kilobytes that a statistics line is read with.
pub const MAX_KILOBYTES: u64 = 0x0fff_ffff_ffff_ffff;

/// `n / d`, rounded to the nearest integer and to the even one of two that
/// are equally near.
pub open spec fn round_half_even(n: nat, d: nat) -> nat {
    let q = n / d;
    let r = n % d;
    if 2 * r > d || (2 * r == d && q % 2 == 1) {
        q + 1
    } else {
        q
    }
}

/// A size of `kb` kilobytes as text: in GB with two decimals from 1024 * 1024
/// kB on, in MB with one decimal from 1024 kB on, else in whole kB.
pub open spec fn size_text_spec(kb: nat) -> Seq<char> {
    if kb >= 1024 * 1024 {
        let h = round_half_even(kb * 100, 1024 * 1024);
        decimal(h / 100) + seq!['.', digit_char(h / 10 % 10), digit_char(h % 10)] + " GB"@
    } else if kb >= 1024 {
        let t = round_half_even(kb * 10, 1024);
        decimal(t / 10) + seq!['.', digit_char(t % 10)] + " MB"@
    } else {
        decimal(kb) + " kB"@
    }
}

fn rounded(n: u128, d: u128) -> (q: u64)
    requires
        d > 0,
        n / d < u64::MAX,
        d <= 0x10_0000,
    ensures
        q == round_half_even(n as nat, d as nat),
{
    let q = n / d;
    let r = n % d;
    if 2 * r > d || (2 * r == d && q % 2 == 1) {
        (q + 1) as u64
    } else {
        q as u64
    }
}

/// A size of `kb` kilobytes as text.
pub fn size_text(kb: u64) -> (s: String)
    ensures
        s@ == size_text_spec(kb as nat),
{
    let mut out: Vec<char>;
    if kb >= 1024 * 1024 {
        let h = rounded(kb as u128 * 100, 1024 * 1024);
        out = decimal_chars(h / 100);
        out.push('.');
        out.push(digit_of((h / 10 % 10) as u8));
        out.push(digit_of((h % 10) as u8));
        push_all(&mut out, &chars_of(" GB"));
        assert(out@ =~= size_text_spec(kb as nat));
    } else if kb >= 1024 {
        let t = rounded(kb as u128 * 10, 1024);
        out = decimal_chars(t / 10);
        out.push('.');
        out.push(digit_of((t % 10) as u8));
        push_all(&mut out, &chars_of(" MB"));
        assert(out@ =~= size_text_spec(kb as nat));
    } else {
        out = decimal_chars(kb);
        push_all(&mut out, &chars_of(" kB"));
    }
    text_of(out.as_slice())
}

/// The report of a line that holds a percentage: the percentage with what the
/// line says of speed, remaining time and size. No report where there is no
/// percentage, or where its digits are not a decimal number.
pub open spec fn percent_update_spec(
    percent: Option<Seq<Option<Seq<char>>>>,
    speed: Option<Seq<Option<Seq<char>>>>,
    eta: Option<Seq<Option<Seq<char>>>>,
    size: Option<Seq<Option<Seq<char>>>>,
) -> Option<ProgressUpdateView> {
    match group(percent, 1) {
        Some(text) => match decimal_progress(text) {
            Some(p) => Some(
                ProgressUpdateView {
                    percent: p,
                    speed: group(speed, 1),
                    eta: group(eta, 1),
                    size: group(size, 1),
                },
            ),
            None => None,
        },
        None => None,
    }
}

/// The report of a statistics line of ffmpeg: no percentage, the speed with
/// an `x` behind it, the elapsed time in place of the remaining time, and the
/// size as text (0 kB where its digits are no number up to [`MAX_KILOBYTES`]).
pub open spec fn ffmpeg_update_spec(stats: Option<Seq<Option<Seq<char>>>>) -> Option<
    ProgressUpdateView,
> {
    match (group(stats, 1), group(stats, 2), group(stats, 3)) {
        (Some(size), Some(elapsed), Some(speed)) => Some(
            ProgressUpdateView {
                percent: Progress::zero_spec(),
                speed: Some(speed + "x"@),
                eta: Some(elapsed),
                size: Some(
                    size_text_spec(
                        match digits_within(size, MAX_KILOBYTES) {
                            Some(kb) => kb as nat,
                            None => 0,
                        },
                    ),
                ),
            },
        ),
        _ => None,
    }
}

/// What a line of the downloader's output reports, if it is a progress line.
pub open spec fn parse_progress_line_spec(line: Seq<char>) -> Option<ProgressUpdateView> {
    match percent_update_spec(
        regex_captures(PERCENT_PATTERN@, line),
        regex_captures(SPEED_PATTERN@, line),
        regex_captures(ETA_PATTERN@, line),
        regex_captures(SIZE_PATTERN@, line),
    ) {
        Some(u) => Some(u),
        None => ffmpeg_update_spec(regex_captures(FFMPEG_PATTERN@, line)),
    }
}

pub open spec fn update_view(u: Option<ProgressUpdate>) -> Option<ProgressUpdateView> {
    match u {
        Some(u) => Some(u@),
        None => None,
    }
}

/// The report of a line that holds a percentage, from what the four patterns
/// found in it.
pub fn percent_update(
    percent: &Option<Vec<Option<String>>>,
    speed: &Option<Vec<Option<String>>>,
    eta: &Option<Vec<Option<String>>>,
    size: &Option<Vec<Option<String>>>,
) -> (u: Option<ProgressUpdate>)
    ensures
        update_view(u) == percent_update_spec(
            groups_view(*percent),
            groups_view(*speed),
            groups_view(*eta),
            groups_view(*size),
        ),
        u matches Some(v) ==> v.percent.wf(),
{
    match group_text(percent, 1) {
        Some(text) => match Progress::from_decimal(text.as_str()) {
            Some(p) => Some(
                ProgressUpdate {
                    percent: p,
                    speed: group_text(speed, 1),
                    eta: group_text(eta, 1),
                    size: group_text(size, 1),
                },
            ),
            None => None,
        },
        None => None,
    }
}

/// The report of a statistics line of ffmpeg, from what its pattern found.
pub fn ffmpeg_update(stats: &Option<Vec<Option<String>>>) -> (u: Option<ProgressUpdate>)
    ensures
        update_view(u) == ffmpeg_update_spec(groups_view(*stats)),
        u matches Some(v) ==> v.percent.wf(),
{
    match (group_text(stats, 1), group_text(stats, 2), group_text(stats, 3)) {
        (Some(size), Some(elapsed), Some(speed)) => {
            let digits = chars_of(size.as_str());
            let kb = match parse_digits(digits.as_slice(), MAX_KILOBYTES) {
                Some(kb) => kb,
                None => 0,
            };
            let mut speed_x = speed;
            speed_x.append("x");
            Some(
                ProgressUpdate {
                    percent: Progress::zero(),
                    speed: Some(speed_x),
                    eta: Some(elapsed),
                    size: Some(size_text(kb)),
                },
            )
        },
        _ => None,
    }
}

/// Reads one line of the downloader's output as a progress report.
pub fn parse_progress_line(line: &str) -> (u: Option<ProgressUpdate>)
    ensures
        update_view(u) == parse_progress_line_spec(line@),
        u matches Some(v) ==> v.percent.wf(),
{
    let percent = captures(PERCENT_PATTERN, line);
    if percent.is_some() {
        let first = percent_update(
            &percent,
            &captures(SPEED_PATTERN, line),
            &captures(ETA_PATTERN, line),
            &captures(SIZE_PATTERN, line),
        );
        if first.is_some() {
            return first;
        }
    }
    ffmpeg_update(&captures(FFMPEG_PATTERN, line))
}

/// The path that a line names as the finished recording.
pub open spec fn output_path_spec(found: Option<Seq<Option<Seq<char>>>>) -> Option<Seq<char>> {
    match group(found, 1) {
        Some(path) => Some(trim_spec(path)),
        None => None,
    }
}

/// The path that a line names as the finished recording, from what the
/// pattern found in it.
pub fn output_path_of(found: &Option<Vec<Option<String>>>) -> (path: Option<String>)
    ensures
        opt_text(path) == output_path_spec(groups_view(*found)),
{
    match group_text(found, 1) {
        Some(path) => Some(trimmed(path.as_str())),
        None => None,
    }
}

/// The path that a line of the downloader's output names as the finished
/// recording.
pub fn extract_output_path(line: &str) -> (path: Option<String>)
    ensures
        opt_text(path) == output_path_spec(regex_captures(OUTPUT_PATTERN@, line@)),
{
    output_path_of(&captures(OUTPUT_PATTERN, line))
}

} // verus!
