//! Download progress as a fixed-point percentage.

use crate::number::{all_digits, digit_value, digits_value, value_of_digit};
use crate::text::{chars_of, first_index, lemma_first_index};
use vstd::prelude::*;

verus! {

/// Thousandths of a percent that make up 100 %.
pub const FULL_THOUSANDTHS: u32 = 100_000;

/// A percentage in `[0, 100]`, held in thousandths of a percent.
#[derive(Clone, Copy, Debug, PartialEq, Eq, Structural)]
pub struct Progress {
    pub thousandths: u32,
}

impl Progress {
    pub open spec fn wf(self) -> bool {
        self.thousandths <= FULL_THOUSANDTHS
    }

    pub open spec fn zero_spec() -> Progress {
        Progress { thousandths: 0 }
    }

    pub open spec fn full_spec() -> Progress {
        Progress { thousandths: FULL_THOUSANDTHS }
    }

    /// 0 %.
    pub fn zero() -> (p: Progress)
        ensures
            p == Progress::zero_spec(),
            p.wf(),
    {
        Progress { thousandths: 0 }
    }

    /// 100 %.
    pub fn full() -> (p: Progress)
        ensures
            p == Progress::full_spec(),
            p.wf(),
    {
        Progress { thousandths: FULL_THOUSANDTHS }
    }

    /// The percentage with the given thousandths, capped at 100 %.
    pub fn from_thousandths(t: u32) -> (p: Progress)
        ensures
            p.wf(),
            p.thousandths == if t <= FULL_THOUSANDTHS { t } else { FULL_THOUSANDTHS },
    {
        if t <= FULL_THOUSANDTHS {
            Progress { thousandths: t }
        } else {
            Progress { thousandths: FULL_THOUSANDTHS }
        }
    }

    /// Whole percent, rounded down.
    pub fn whole_percent(&self) -> (n: u32)
        ensures
            n == self.thousandths / 1000,
    {
        self.thousandths / 1000
    }
}

/// The digit at position `i` of a fraction, and 0 behind its end.
pub open spec fn fraction_digit(fraction: Seq<char>, i: int) -> nat {
    if 0 <= i < fraction.len() {
        digit_value(fraction[i])
    } else {
        0
    }
}

/// The percentage that a decimal number writes: digits, then optionally a
/// point and more digits. Digits beyond the third decimal place are dropped,
/// and a number above 100 counts as 100. Any other text is no percentage.
pub open spec fn decimal_progress(text: Seq<char>) -> Option<Progress> {
    let point = first_index(text, '.');
    let whole = text.take(point);
    let fraction = if point < text.len() {
        text.skip(point + 1)
    } else {
        Seq::empty()
    };
    if whole.len() > 0 && all_digits(whole) && all_digits(fraction) {
        let t = digits_value(whole) * 1000 + fraction_digit(fraction, 0) * 100 + fraction_digit(
            fraction,
            1,
        ) * 10 + fraction_digit(fraction, 2);
        Some(
            Progress {
                thousandths: if t <= FULL_THOUSANDTHS {
                    t as u32
                } else {
                    FULL_THOUSANDTHS
                },
            },
        )
    } else {
        None
    }
}

impl Progress {
    /// Reads a percentage from its decimal text.
    pub fn from_decimal(text: &str) -> (p: Option<Progress>)
        ensures
            p == decimal_progress(text@),
            p matches Some(v) ==> v.wf(),
    {
        let s = chars_of(text);
        let mut point: usize = 0;
        while point < s.len() && s[point] != '.'
            invariant
                point <= s.len(),
                forall|j: int| 0 <= j < point ==> s@[j] != '.',
            decreases s.len() - point,
        {
            point += 1;
        }
        proof {
            lemma_first_index(s@, '.', point as int);
        }
        if point == 0 {
            return None;
        }
        let ghost whole = s@.take(point as int);
        let ghost fraction = if point < s.len() {
            s@.skip(point + 1)
        } else {
            Seq::empty()
        };
        // the whole part, counted up to 101: beyond 100 the result is 100 %
        let mut acc: u64 = 0;
        let mut i: usize = 0;
        while i < point
            invariant
                i <= point <= s.len(),
                s@ == text@,
                first_index(s@, '.') == point,
                whole == s@.take(point as int),
                all_digits(whole.take(i as int)),
                acc == if digits_value(whole.take(i as int)) <= 100 {
                    digits_value(whole.take(i as int))
                } else {
                    101nat
                },
            decreases point - i,
        {
            assert(whole.take(i + 1).drop_last() =~= whole.take(i as int));
            assert(whole.take(i + 1).last() == s@[i as int]);
            assert(whole[i as int] == s@[i as int]);
            match value_of_digit(s[i]) {
                None => {
                    return None;
                },
                Some(d) => {
                    let next: u64 = acc * 10 + d as u64;
                    acc = if next <= 100 {
                        next
                    } else {
                        101
                    };
                    assert forall|j: int| 0 <= j < i + 1 implies crate::number::is_digit(
                        #[trigger] whole.take(i + 1)[j],
                    ) by {
                        if j < i {
                            assert(whole.take(i + 1)[j] == whole.take(i as int)[j]);
                        }
                    }
                },
            }
            i += 1;
        }
        assert(whole.take(point as int) =~= whole);
        // the fraction: every character a digit, the first three counted
        let mut scaled: u64 = 0;
        let mut weight: u64 = 100;
        let mut k: usize = if point < s.len() {
            point + 1
        } else {
            point
        };
        let start = k;
        while k < s.len()
            invariant
                start <= k <= s.len(),
                s@ == text@,
                first_index(s@, '.') == point,
                start == if point < s.len() {
                    point + 1
                } else {
                    point as int
                },
                fraction == s@.skip(start as int),
                point < s.len() ==> fraction == s@.skip(point + 1),
                point >= s.len() ==> fraction.len() == 0,
                all_digits(fraction.take(k - start)),
                weight == if k - start == 0 {
                    100u64
                } else if k - start == 1 {
                    10u64
                } else if k - start == 2 {
                    1u64
                } else {
                    0u64
                },
                k - start <= 3 ==> scaled == (if k - start > 0 {
                    fraction_digit(fraction, 0) * 100
                } else {
                    0nat
                }) + (if k - start > 1 {
                    fraction_digit(fraction, 1) * 10
                } else {
                    0nat
                }) + (if k - start > 2 {
                    fraction_digit(fraction, 2)
                } else {
                    0nat
                }),
                k - start > 3 ==> scaled == fraction_digit(fraction, 0) * 100 + fraction_digit(
                    fraction,
                    1,
                ) * 10 + fraction_digit(fraction, 2),
                scaled <= 999,
            decreases s.len() - k,
        {
            assert(fraction[k - start] == s@[k as int]);
            match value_of_digit(s[k]) {
                None => {
                    return None;
                },
                Some(d) => {
                    scaled = scaled + weight * d as u64;
                    weight = weight / 10;
                    assert forall|j: int| 0 <= j < k - start + 1 implies crate::number::is_digit(
                        #[trigger] fraction.take(k - start + 1)[j],
                    ) by {
                        if j < k - start {
                            assert(fraction.take(k - start + 1)[j] == fraction.take(k - start)[j]);
                        }
                    }
                },
            }
            k += 1;
        }
        assert(fraction.take(k - start) =~= fraction);
        let total: u64 = acc * 1000 + scaled;
        if total <= FULL_THOUSANDTHS as u64 {
            Some(Progress { thousandths: total as u32 })
        } else {
            Some(Progress { thousandths: FULL_THOUSANDTHS })
        }
    }
}

/// One progress report of a running download.
#[derive(Clone, Debug)]
pub struct ProgressUpdate {
    pub percent: Progress,
    pub speed: Option<String>,
    pub eta: Option<String>,
    pub size: Option<String>,
}

/// What a [`ProgressUpdate`] holds, as plain values.
pub struct ProgressUpdateView {
    pub percent: Progress,
    pub speed: Option<Seq<char>>,
    pub eta: Option<Seq<char>>,
    pub size: Option<Seq<char>>,
}

/// The characters of an optional string.
pub open spec fn opt_text(s: Option<String>) -> Option<Seq<char>> {
    match s {
        Some(t) => Some(t@),
        None => None,
    }
}

impl View for ProgressUpdate {
    type V = ProgressUpdateView;

    open spec fn view(&self) -> ProgressUpdateView {
        ProgressUpdateView {
            percent: self.percent,
            speed: opt_text(self.speed),
            eta: opt_text(self.eta),
            size: opt_text(self.size),
        }
    }
}

} // verus!
