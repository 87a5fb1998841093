//! Character-level helpers: strings are read into `Vec<char>`, worked on as
//! sequences, and written back.

use vstd::prelude::*;

verus! {

/// The characters of `s`, in order.
pub fn chars_of(s: &str) -> (v: Vec<char>)
    ensures
        v@ == s@,
{
    let mut v: Vec<char> = Vec::new();
    for c in it: s.chars()
        invariant
            it.seq() == s@,
            v@ == it.seq().take(it.index() as int),
    {
        v.push(c);
    }
    v
}

/// Whether two character slices are equal, element by element.
pub fn same_chars(a: &[char], b: &[char]) -> (r: bool)
    ensures
        r == (a@ == b@),
{
    if a.len() != b.len() {
        return false;
    }
    let mut i: usize = 0;
    while i < a.len()
        invariant
            i <= a.len(),
            a.len() == b.len(),
            forall|k: int| 0 <= k < i ==> a@[k] == b@[k],
        decreases a.len() - i,
    {
        if a[i] != b[i] {
            return false;
        }
        i += 1;
    }
    assert(a@ =~= b@);
    true
}

/// Whether two strings hold the same characters.
pub fn same_text(a: &str, b: &str) -> (r: bool)
    ensures
        r == (a@ == b@),
{
    let x = chars_of(a);
    let y = chars_of(b);
    same_chars(x.as_slice(), y.as_slice())
}

/// The characters of each string of a list.
pub open spec fn texts(v: Seq<String>) -> Seq<Seq<char>> {
    v.map_values(|s: String| s@)
}

/// Where `id` first occurs in `ids`.
pub fn position(ids: &Vec<String>, id: &str) -> (r: Option<usize>)
    ensures
        match r {
            Some(i) => i < ids.len() && texts(ids@)[i as int] == id@ && forall|j: int|
                0 <= j < i ==> texts(ids@)[j] != id@,
            None => !texts(ids@).contains(id@),
        },
{
    let mut i: usize = 0;
    while i < ids.len()
        invariant
            i <= ids.len(),
            forall|j: int| 0 <= j < i ==> texts(ids@)[j] != id@,
        decreases ids.len() - i,
    {
        if same_text(ids[i].as_str(), id) {
            return Some(i);
        }
        i += 1;
    }
    None
}

/// Appends the characters of `more` to `out`.
pub fn push_all(out: &mut Vec<char>, more: &Vec<char>)
    ensures
        final(out)@ == old(out)@ + more@,
{
    let mut i: usize = 0;
    while i < more.len()
        invariant
            i <= more.len(),
            out@ == old(out)@ + more@.take(i as int),
        decreases more.len() - i,
    {
        assert(more@.take(i + 1) =~= more@.take(i as int).push(more@[i as int]));
        out.push(more[i]);
        i += 1;
    }
    assert(more@.take(more.len() as int) =~= more@);
}

/// Whether a character is white space as the standard library defines it for
/// `char::is_whitespace`: the code points with the Unicode property
/// `White_Space`.
pub open spec fn is_space(c: char) -> bool {
    ||| ('\u{9}' <= c && c <= '\u{d}')
    ||| c == ' '
    ||| c == '\u{85}'
    ||| c == '\u{a0}'
    ||| c == '\u{1680}'
    ||| ('\u{2000}' <= c && c <= '\u{200a}')
    ||| c == '\u{2028}'
    ||| c == '\u{2029}'
    ||| c == '\u{202f}'
    ||| c == '\u{205f}'
    ||| c == '\u{3000}'
}

pub fn space(c: char) -> (r: bool)
    ensures
        r == is_space(c),
{
    ('\u{9}' <= c && c <= '\u{d}') || c == ' ' || c == '\u{85}' || c == '\u{a0}' || c
        == '\u{1680}' || ('\u{2000}' <= c && c <= '\u{200a}') || c == '\u{2028}' || c
        == '\u{2029}' || c == '\u{202f}' || c == '\u{205f}' || c == '\u{3000}'
}

/// `s` without the white space at its start.
pub open spec fn trim_start_spec(s: Seq<char>) -> Seq<char>
    decreases s.len(),
{
    if s.len() > 0 && is_space(s[0]) {
        trim_start_spec(s.drop_first())
    } else {
        s
    }
}

/// `s` without the white space at its end.
pub open spec fn trim_end_spec(s: Seq<char>) -> Seq<char>
    decreases s.len(),
{
    if s.len() > 0 && is_space(s.last()) {
        trim_end_spec(s.drop_last())
    } else {
        s
    }
}

/// `s` without the white space at either end.
pub open spec fn trim_spec(s: Seq<char>) -> Seq<char> {
    trim_end_spec(trim_start_spec(s))
}

proof fn lemma_trim_start(s: Seq<char>, k: int)
    requires
        0 <= k <= s.len(),
        forall|j: int| 0 <= j < k ==> is_space(s[j]),
        k < s.len() ==> !is_space(s[k]),
    ensures
        trim_start_spec(s) == s.skip(k),
    decreases s.len(),
{
    if k > 0 {
        lemma_trim_start(s.drop_first(), k - 1);
        assert(s.drop_first().skip(k - 1) =~= s.skip(k));
    } else {
        assert(s.skip(0) =~= s);
    }
}

proof fn lemma_trim_end(s: Seq<char>, k: int)
    requires
        0 <= k <= s.len(),
        forall|j: int| k <= j < s.len() ==> is_space(s[j]),
        k > 0 ==> !is_space(s[k - 1]),
    ensures
        trim_end_spec(s) == s.take(k),
    decreases s.len(),
{
    if k < s.len() {
        lemma_trim_end(s.drop_last(), k);
        assert(s.drop_last().take(k) =~= s.take(k));
    } else {
        assert(s.take(k) =~= s);
    }
}

/// The part of `s` behind the white space at its start.
pub fn trim_start(s: &[char]) -> (t: &[char])
    ensures
        t@ == trim_start_spec(s@),
{
    let mut start: usize = 0;
    while start < s.len() && space(s[start])
        invariant
            start <= s.len(),
            forall|j: int| 0 <= j < start ==> is_space(s@[j]),
        decreases s.len() - start,
    {
        start += 1;
    }
    proof {
        lemma_trim_start(s@, start as int);
        assert(s@.skip(start as int) =~= s@.subrange(start as int, s.len() as int));
    }
    vstd::slice::slice_subrange(s, start, s.len())
}

/// The part of `s` between the white space at its two ends.
pub fn trim(s: &[char]) -> (t: &[char])
    ensures
        t@ == trim_spec(s@),
{
    let mut start: usize = 0;
    while start < s.len() && space(s[start])
        invariant
            start <= s.len(),
            forall|j: int| 0 <= j < start ==> is_space(s@[j]),
        decreases s.len() - start,
    {
        start += 1;
    }
    let mut end: usize = s.len();
    while end > start && space(s[end - 1])
        invariant
            start <= end <= s.len(),
            forall|j: int| end <= j < s.len() ==> is_space(s@[j]),
        decreases end,
    {
        end -= 1;
    }
    proof {
        lemma_trim_start(s@, start as int);
        let rest = s@.skip(start as int);
        assert forall|j: int| end - start <= j < rest.len() implies is_space(rest[j]) by {
            assert(rest[j] == s@[j + start]);
        }
        if end > start {
            assert(rest[end - start - 1] == s@[end - 1]);
        }
        lemma_trim_end(rest, end - start);
        assert(rest.take(end - start) =~= s@.subrange(start as int, end as int));
    }
    vstd::slice::slice_subrange(s, start, end)
}

/// The text of `s` without the white space at either end.
pub fn trimmed(s: &str) -> (t: String)
    ensures
        t@ == trim_spec(s@),
{
    let chars = chars_of(s);
    text_of(trim(chars.as_slice()))
}

/// Where `c` first stands in `s`, or the length of `s` if it does not.
pub open spec fn first_index(s: Seq<char>, c: char) -> int
    decreases s.len(),
{
    if s.len() == 0 || s[0] == c {
        0
    } else {
        1 + first_index(s.drop_first(), c)
    }
}

pub proof fn lemma_first_index(s: Seq<char>, c: char, k: int)
    requires
        0 <= k <= s.len(),
        forall|j: int| 0 <= j < k ==> s[j] != c,
        k < s.len() ==> s[k] == c,
    ensures
        first_index(s, c) == k,
    decreases s.len(),
{
    if k > 0 {
        lemma_first_index(s.drop_first(), c, k - 1);
    }
}

/// Where `c` first stands in `s` at or after `from`, or the length of `s`.
pub fn find_from(s: &[char], c: char, from: usize) -> (k: usize)
    requires
        from <= s.len(),
    ensures
        from <= k <= s.len(),
        k == from + first_index(s@.skip(from as int), c),
{
    let mut k: usize = from;
    while k < s.len() && s[k] != c
        invariant
            from <= k <= s.len(),
            forall|j: int| from <= j < k ==> s@[j] != c,
        decreases s.len() - k,
    {
        k += 1;
    }
    proof {
        lemma_first_index(s@.skip(from as int), c, k - from);
    }
    k
}

/// `s` without one carriage return at its end.
pub open spec fn without_cr(s: Seq<char>) -> Seq<char> {
    if s.len() > 0 && s.last() == '\r' {
        s.drop_last()
    } else {
        s
    }
}

/// The lines of a text as `str::lines` gives them: each ends at a line feed,
/// which is dropped together with a carriage return before it; what follows
/// the last line feed is a line too, unless it is empty.
pub open spec fn lines_spec(s: Seq<char>) -> Seq<Seq<char>>
    decreases s.len(),
{
    if s.len() == 0 {
        Seq::empty()
    } else {
        let k = first_index(s, '\n');
        if 0 <= k < s.len() {
            seq![without_cr(s.take(k))] + lines_spec(s.skip(k + 1))
        } else {
            seq![s]
        }
    }
}

/// The parts of a text as `str::splitn` gives them: cut at `separator`, at
/// most `n` parts, the last one holding the rest.
pub open spec fn splitn_spec(s: Seq<char>, n: nat, separator: char) -> Seq<Seq<char>>
    decreases n,
{
    if n == 0 {
        Seq::empty()
    } else {
        let k = first_index(s, separator);
        if n == 1 || k >= s.len() {
            seq![s]
        } else {
            seq![s.take(k)] + splitn_spec(s.skip(k + 1), (n - 1) as nat, separator)
        }
    }
}

/// The character sequences of a list of character vectors.
pub open spec fn rows_of(v: Seq<Vec<char>>) -> Seq<Seq<char>> {
    v.map_values(|r: Vec<char>| r@)
}

fn copy_range(s: &[char], from: usize, to: usize) -> (v: Vec<char>)
    requires
        from <= to <= s.len(),
    ensures
        v@ == s@.subrange(from as int, to as int),
{
    let mut v: Vec<char> = Vec::new();
    let mut i: usize = from;
    while i < to
        invariant
            from <= i <= to <= s.len(),
            v@ == s@.subrange(from as int, i as int),
        decreases to - i,
    {
        v.push(s[i]);
        assert(s@.subrange(from as int, i + 1) =~= s@.subrange(from as int, i as int).push(
            s@[i as int],
        ));
        i += 1;
    }
    v
}

/// The lines of a text.
pub fn lines(s: &[char]) -> (out: Vec<Vec<char>>)
    ensures
        rows_of(out@) == lines_spec(s@),
{
    let mut out: Vec<Vec<char>> = Vec::new();
    let mut pos: usize = 0;
    assert(s@.skip(0) =~= s@);
    assert(rows_of(out@) + lines_spec(s@) =~= lines_spec(s@));
    while pos < s.len()
        invariant
            pos <= s.len(),
            lines_spec(s@) == rows_of(out@) + lines_spec(s@.skip(pos as int)),
        decreases s.len() - pos,
    {
        let k = find_from(s, '\n', pos);
        let ghost rest = s@.skip(pos as int);
        let ghost before = rows_of(out@);
        if k < s.len() {
            let end: usize = if k > pos && s[k - 1] == '\r' {
                k - 1
            } else {
                k
            };
            let line = copy_range(s, pos, end);
            proof {
                assert(rest.take(k - pos) =~= s@.subrange(pos as int, k as int));
                if k > pos {
                    assert(rest.take(k - pos).last() == s@[k - 1]);
                }
                assert(line@ =~= without_cr(rest.take(k - pos)));
                assert(rest.skip(k - pos + 1) =~= s@.skip(k + 1));
            }
            out.push(line);
            assert(rows_of(out@) =~= before.push(without_cr(rest.take(k - pos))));
            assert(before + (seq![without_cr(rest.take(k - pos))] + lines_spec(s@.skip(k + 1)))
                =~= before.push(without_cr(rest.take(k - pos))) + lines_spec(s@.skip(k + 1)));
            pos = k + 1;
        } else {
            let line = copy_range(s, pos, s.len());
            assert(line@ =~= rest);
            out.push(line);
            assert(rows_of(out@) =~= before.push(rest));
            assert(s@.skip(s.len() as int) =~= Seq::empty());
            assert(before + seq![rest] =~= before.push(rest) + lines_spec(
                s@.skip(s.len() as int),
            ));
            pos = s.len();
        }
    }
    assert(s@.skip(pos as int) =~= Seq::empty());
    assert(rows_of(out@) + Seq::<Seq<char>>::empty() =~= rows_of(out@));
    out
}

/// The parts of a text, cut at `separator`, at most `n` of them.
pub fn splitn(s: &[char], n: usize, separator: char) -> (out: Vec<Vec<char>>)
    ensures
        rows_of(out@) == splitn_spec(s@, n as nat, separator),
{
    let mut out: Vec<Vec<char>> = Vec::new();
    if n == 0 {
        assert(rows_of(out@) =~= Seq::empty());
        return out;
    }
    let mut pos: usize = 0;
    let mut left: usize = n;
    assert(s@.skip(0) =~= s@);
    assert(rows_of(out@) + splitn_spec(s@, n as nat, separator) =~= splitn_spec(
        s@,
        n as nat,
        separator,
    ));
    loop
        invariant_except_break
            pos <= s.len(),
            left >= 1,
            splitn_spec(s@, n as nat, separator) == rows_of(out@) + splitn_spec(
                s@.skip(pos as int),
                left as nat,
                separator,
            ),
        ensures
            rows_of(out@) == splitn_spec(s@, n as nat, separator),
        decreases left,
    {
        let k = find_from(s, separator, pos);
        let ghost rest = s@.skip(pos as int);
        let ghost before = rows_of(out@);
        if left == 1 || k >= s.len() {
            let part = copy_range(s, pos, s.len());
            assert(part@ =~= rest);
            out.push(part);
            assert(rows_of(out@) =~= before + seq![rest]);
            break;
        }
        let part = copy_range(s, pos, k);
        proof {
            assert(part@ =~= rest.take(k - pos));
            assert(rest.skip(k - pos + 1) =~= s@.skip(k + 1));
        }
        out.push(part);
        assert(rows_of(out@) =~= before.push(rest.take(k - pos)));
        assert(before + (seq![rest.take(k - pos)] + splitn_spec(
            s@.skip(k + 1),
            (left - 1) as nat,
            separator,
        )) =~= before.push(rest.take(k - pos)) + splitn_spec(
            s@.skip(k + 1),
            (left - 1) as nat,
            separator,
        ));
        pos = k + 1;
        left -= 1;
    }
    out
}

/// Whether `needle` occurs in `hay` as a run of consecutive characters.
pub open spec fn is_substring(hay: Seq<char>, needle: Seq<char>) -> bool {
    exists|i: int| 0 <= i <= hay.len() - needle.len() && #[trigger] hay.subrange(
        i,
        i + needle.len(),
    ) == needle
}

/// Whether `needle` stands in `hay` at position `at`.
pub fn occurs_at(hay: &[char], needle: &[char], at: usize) -> (r: bool)
    requires
        at + needle.len() <= hay.len(),
    ensures
        r == (hay@.subrange(at as int, at + needle.len()) == needle@),
{
    let mut k: usize = 0;
    while k < needle.len()
        invariant
            k <= needle.len(),
            at + needle.len() <= hay.len(),
            forall|j: int| 0 <= j < k ==> hay@[at + j] == needle@[j],
        decreases needle.len() - k,
    {
        if hay[at + k] != needle[k] {
            assert(hay@.subrange(at as int, at + needle.len())[k as int] != needle@[k as int]);
            return false;
        }
        k += 1;
    }
    assert(hay@.subrange(at as int, at + needle.len()) =~= needle@);
    true
}

/// Whether `needle` occurs in `hay`.
pub fn has_substring(hay: &[char], needle: &[char]) -> (r: bool)
    ensures
        r == is_substring(hay@, needle@),
{
    if needle.len() > hay.len() {
        return false;
    }
    if needle.len() == 0 {
        assert(hay@.subrange(0, 0 + needle.len()) =~= needle@);
        return true;
    }
    let last: usize = hay.len() - needle.len();
    let mut i: usize = 0;
    while i <= last
        invariant
            i <= last + 1,
            needle.len() > 0,
            last == hay.len() - needle.len(),
            forall|j: int| 0 <= j < i ==> #[trigger] hay@.subrange(j, j + needle.len())
                != needle@,
        decreases last + 1 - i,
    {
        if occurs_at(hay, needle, i) {
            return true;
        }
        i += 1;
    }
    false
}

/// Where `needle` first occurs in `hay`, if it does.
pub open spec fn first_occurrence(hay: Seq<char>, needle: Seq<char>) -> Option<int> {
    if is_substring(hay, needle) {
        Some(
            choose|i: int|
                0 <= i <= hay.len() - needle.len() && #[trigger] hay.subrange(i, i + needle.len())
                    == needle && forall|j: int|
                    0 <= j < i ==> #[trigger] hay.subrange(j, j + needle.len()) != needle,
        )
    } else {
        None
    }
}

/// Where `needle` first occurs in `hay`.
pub fn find_sub(hay: &[char], needle: &[char]) -> (r: Option<usize>)
    ensures
        match r {
            Some(i) => first_occurrence(hay@, needle@) == Some(i as int) && i + needle.len()
                <= hay.len() && hay@.subrange(i as int, i + needle.len()) == needle@,
            None => first_occurrence(hay@, needle@).is_none(),
        },
{
    if needle.len() > hay.len() {
        return None;
    }
    let last: usize = hay.len() - needle.len();
    let mut i: usize = 0;
    while i <= last
        invariant
            i <= last + 1,
            last == hay.len() - needle.len(),
            forall|j: int| 0 <= j < i ==> #[trigger] hay@.subrange(j, j + needle.len())
                != needle@,
        decreases last + 1 - i,
    {
        if occurs_at(hay, needle, i) {
            proof {
                let found = first_occurrence(hay@, needle@)->0;
                assert(is_substring(hay@, needle@));
                if found < i {
                    assert(hay@.subrange(found, found + needle.len()) != needle@);
                } else if found > i {
                    assert(hay@.subrange(i as int, i + needle.len()) == needle@);
                }
            }
            return Some(i);
        }
        if i == last {
            return None;
        }
        i += 1;
    }
    None
}

/// `s` with every occurrence of `needle` replaced by `with`, from left to
/// right, as `str::replace` does it. An empty `needle` replaces nothing here.
pub open spec fn replaced(s: Seq<char>, needle: Seq<char>, with: Seq<char>) -> Seq<char>
    decreases s.len(),
{
    if needle.len() == 0 || s.len() < needle.len() {
        s
    } else if s.take(needle.len() as int) == needle {
        with + replaced(s.skip(needle.len() as int), needle, with)
    } else {
        seq![s[0]] + replaced(s.skip(1), needle, with)
    }
}

/// `s` with every occurrence of a non-empty `needle` replaced by `with`.
pub fn replace_text(s: &[char], needle: &[char], with: &Vec<char>) -> (out: Vec<char>)
    ensures
        out@ == replaced(s@, needle@, with@),
{
    let mut out: Vec<char> = Vec::new();
    if needle.len() == 0 {
        let mut k: usize = 0;
        while k < s.len()
            invariant
                k <= s.len(),
                out@ == s@.take(k as int),
            decreases s.len() - k,
        {
            out.push(s[k]);
            assert(s@.take(k + 1) =~= s@.take(k as int).push(s@[k as int]));
            k += 1;
        }
        assert(s@.take(s.len() as int) =~= s@);
        return out;
    }
    let mut i: usize = 0;
    assert(s@.skip(0) =~= s@);
    assert(out@ + replaced(s@, needle@, with@) =~= replaced(s@, needle@, with@));
    while i < s.len()
        invariant
            i <= s.len(),
            needle.len() > 0,
            replaced(s@, needle@, with@) == out@ + replaced(s@.skip(i as int), needle@, with@),
        decreases s.len() - i,
    {
        let ghost rest = s@.skip(i as int);
        let ghost before = out@;
        if s.len() - i >= needle.len() && occurs_at(s, needle, i) {
            assert(rest.take(needle.len() as int) =~= s@.subrange(i as int, i + needle.len()));
            assert(rest.skip(needle.len() as int) =~= s@.skip(i + needle.len()));
            push_all(&mut out, with);
            assert(before + (with@ + replaced(s@.skip(i + needle.len()), needle@, with@)) =~= (
            before + with@) + replaced(s@.skip(i + needle.len()), needle@, with@));
            i += needle.len();
        } else {
            proof {
                if s.len() - i >= needle.len() {
                    assert(rest.take(needle.len() as int) =~= s@.subrange(
                        i as int,
                        i + needle.len(),
                    ));
                    assert(rest.skip(1) =~= s@.skip(i + 1));
                    assert(before + (seq![rest[0]] + replaced(s@.skip(i + 1), needle@, with@))
                        =~= before.push(s@[i as int]) + replaced(s@.skip(i + 1), needle@, with@));
                }
            }
            if s.len() - i < needle.len() {
                // what is left is shorter than the needle and stays as it is
                let mut k: usize = i;
                while k < s.len()
                    invariant
                        i <= k <= s.len(),
                        out@ == before + s@.subrange(i as int, k as int),
                    decreases s.len() - k,
                {
                    out.push(s[k]);
                    assert(s@.subrange(i as int, k + 1) =~= s@.subrange(i as int, k as int).push(
                        s@[k as int],
                    ));
                    k += 1;
                }
                assert(s@.subrange(i as int, s.len() as int) =~= rest);
                assert(s@.skip(s.len() as int) =~= Seq::empty());
                assert(out@ + replaced(s@.skip(s.len() as int), needle@, with@) =~= before + rest);
                i = s.len();
            } else {
                out.push(s[i]);
                i += 1;
            }
        }
    }
    assert(s@.skip(s.len() as int) =~= Seq::empty());
    assert(out@ + Seq::<char>::empty() =~= out@);
    out
}

/// Where the first white space of `s` stands, or its length if it has none.
pub open spec fn first_space(s: Seq<char>) -> int
    decreases s.len(),
{
    if s.len() == 0 || is_space(s[0]) {
        0
    } else {
        1 + first_space(s.drop_first())
    }
}

proof fn lemma_first_space(s: Seq<char>, k: int)
    requires
        0 <= k <= s.len(),
        forall|j: int| 0 <= j < k ==> !is_space(s[j]),
        k < s.len() ==> is_space(s[k]),
    ensures
        first_space(s) == k,
    decreases s.len(),
{
    if k > 0 {
        lemma_first_space(s.drop_first(), k - 1);
    }
}

/// The words of a text as `str::split_whitespace` gives them: the runs of
/// characters between white space.
pub open spec fn words_spec(s: Seq<char>) -> Seq<Seq<char>>
    decreases s.len(),
{
    let t = trim_start_spec(s);
    let k = first_space(t);
    if t.len() == 0 || k <= 0 || k > t.len() || t.len() > s.len() {
        Seq::empty()
    } else {
        seq![t.take(k)] + words_spec(t.skip(k))
    }
}

/// The words of a text.
pub fn words(s: &[char]) -> (out: Vec<Vec<char>>)
    ensures
        rows_of(out@) == words_spec(s@),
{
    let mut out: Vec<Vec<char>> = Vec::new();
    let mut pos: usize = 0;
    assert(s@.skip(0) =~= s@);
    assert(rows_of(out@) + words_spec(s@) =~= words_spec(s@));
    while pos < s.len()
        invariant
            pos <= s.len(),
            words_spec(s@) == rows_of(out@) + words_spec(s@.skip(pos as int)),
        decreases s.len() - pos,
    {
        let ghost rest = s@.skip(pos as int);
        let ghost before = rows_of(out@);
        let mut start: usize = pos;
        while start < s.len() && space(s[start])
            invariant
                pos <= start <= s.len(),
                forall|j: int| pos <= j < start ==> is_space(s@[j]),
            decreases s.len() - start,
        {
            start += 1;
        }
        let mut end: usize = start;
        while end < s.len() && !space(s[end])
            invariant
                start <= end <= s.len(),
                forall|j: int| start <= j < end ==> !is_space(s@[j]),
            decreases s.len() - end,
        {
            end += 1;
        }
        proof {
            assert forall|j: int| 0 <= j < start - pos implies is_space(rest[j]) by {
                assert(rest[j] == s@[pos + j]);
            }
            if start < s.len() {
                assert(rest[start - pos] == s@[start as int]);
            }
            lemma_trim_start(rest, start - pos);
            let t = rest.skip(start - pos);
            assert(t =~= s@.skip(start as int));
            assert forall|j: int| 0 <= j < end - start implies !is_space(t[j]) by {
                assert(t[j] == s@[start + j]);
            }
            if end < s.len() {
                assert(t[end - start] == s@[end as int]);
            }
            lemma_first_space(t, end - start);
            assert(t.skip(end - start) =~= s@.skip(end as int));
            assert(t.take(end - start) =~= s@.subrange(start as int, end as int));
        }
        if start < s.len() {
            let word = copy_range(s, start, end);
            out.push(word);
            assert(rows_of(out@) =~= before.push(s@.subrange(start as int, end as int)));
            assert(before + (seq![s@.subrange(start as int, end as int)] + words_spec(
                s@.skip(end as int),
            )) =~= before.push(s@.subrange(start as int, end as int)) + words_spec(
                s@.skip(end as int),
            ));
        } else {
            assert(s@.skip(s.len() as int) =~= Seq::empty());
            assert(words_spec(Seq::empty()) =~= Seq::empty());
        }
        pos = end;
    }
    assert(s@.skip(pos as int) =~= Seq::empty());
    assert(rows_of(out@) + Seq::<Seq<char>>::empty() =~= rows_of(out@));
    out
}

/// `s` without the run of `c` at its end.
pub open spec fn trim_end_char_spec(s: Seq<char>, c: char) -> Seq<char>
    decreases s.len(),
{
    if s.len() > 0 && s.last() == c {
        trim_end_char_spec(s.drop_last(), c)
    } else {
        s
    }
}

/// `s` without the run of `c` at its end.
pub fn trim_end_char(s: &[char], c: char) -> (t: &[char])
    ensures
        t@ == trim_end_char_spec(s@, c),
{
    let mut end: usize = s.len();
    assert(s@.take(end as int) =~= s@);
    while end > 0 && s[end - 1] == c
        invariant
            end <= s.len(),
            trim_end_char_spec(s@, c) == trim_end_char_spec(s@.take(end as int), c),
        decreases end,
    {
        assert(s@.take(end as int).last() == s@[end - 1]);
        assert(s@.take(end as int).drop_last() =~= s@.take(end - 1));
        end -= 1;
    }
    proof {
        if end > 0 {
            assert(s@.take(end as int).last() == s@[end - 1]);
        }
        assert(s@.take(end as int) =~= s@.subrange(0, end as int));
    }
    vstd::slice::slice_subrange(s, 0, end)
}

/// `s` without the repetitions of a non-empty `prefix` at its start.
pub open spec fn strip_prefixes_spec(s: Seq<char>, prefix: Seq<char>) -> Seq<char>
    decreases s.len(),
{
    if prefix.len() > 0 && has_prefix(s, prefix) {
        strip_prefixes_spec(s.skip(prefix.len() as int), prefix)
    } else {
        s
    }
}

/// `s` without the repetitions of `prefix` at its start.
pub fn strip_prefixes<'a>(s: &'a [char], prefix: &[char]) -> (t: &'a [char])
    ensures
        t@ == strip_prefixes_spec(s@, prefix@),
{
    if prefix.len() == 0 {
        return s;
    }
    let mut start: usize = 0;
    assert(s@.skip(0) =~= s@);
    while s.len() - start >= prefix.len() && occurs_at(s, prefix, start)
        invariant
            start <= s.len(),
            prefix.len() > 0,
            strip_prefixes_spec(s@, prefix@) == strip_prefixes_spec(
                s@.skip(start as int),
                prefix@,
            ),
        decreases s.len() - start,
    {
        proof {
            let rest = s@.skip(start as int);
            assert(rest.take(prefix.len() as int) =~= s@.subrange(
                start as int,
                start + prefix.len(),
            ));
            assert(rest.skip(prefix.len() as int) =~= s@.skip(start + prefix.len()));
        }
        start += prefix.len();
    }
    proof {
        let rest = s@.skip(start as int);
        if s.len() - start >= prefix.len() {
            assert(rest.take(prefix.len() as int) =~= s@.subrange(
                start as int,
                start + prefix.len(),
            ));
        }
        assert(rest =~= s@.subrange(start as int, s.len() as int));
    }
    vstd::slice::slice_subrange(s, start, s.len())
}

/// Whether `s` begins with `prefix`.
pub open spec fn has_prefix(s: Seq<char>, prefix: Seq<char>) -> bool {
    prefix.len() <= s.len() && s.take(prefix.len() as int) == prefix
}

/// Whether `s` begins with `prefix`.
pub fn starts_with(s: &[char], prefix: &[char]) -> (r: bool)
    ensures
        r == has_prefix(s@, prefix@),
{
    if prefix.len() > s.len() {
        return false;
    }
    let r = occurs_at(s, prefix, 0);
    assert(s@.take(prefix.len() as int) =~= s@.subrange(0, 0 + prefix.len()));
    r
}

/// The strings of `parts` with `separator` between each two.
pub open spec fn joined(parts: Seq<Seq<char>>, separator: Seq<char>) -> Seq<char>
    decreases parts.len(),
{
    if parts.len() == 0 {
        Seq::empty()
    } else if parts.len() == 1 {
        parts[0]
    } else {
        joined(parts.drop_last(), separator) + separator + parts.last()
    }
}

/// The strings of `parts` with `separator` between each two.
pub fn join(parts: &Vec<String>, separator: &str) -> (s: String)
    ensures
        s@ == joined(texts(parts@), separator@),
{
    let sep = chars_of(separator);
    let mut out: Vec<char> = Vec::new();
    let mut i: usize = 0;
    let ghost all = texts(parts@);
    assert(all.take(0) =~= Seq::empty());
    while i < parts.len()
        invariant
            i <= parts.len(),
            all == texts(parts@),
            sep@ == separator@,
            out@ == joined(all.take(i as int), separator@),
        decreases parts.len() - i,
    {
        assert(all.take(i + 1).drop_last() =~= all.take(i as int));
        assert(all.take(i + 1).last() == parts@[i as int]@);
        if i > 0 {
            push_all(&mut out, &sep);
        }
        push_all(&mut out, &chars_of(parts[i].as_str()));
        proof {
            if i == 0 {
                assert(all.take(1)[0] == parts@[0]@);
                assert(out@ =~= parts@[0]@);
            }
        }
        i += 1;
    }
    assert(all.take(i as int) =~= all);
    text_of(out.as_slice())
}

/// What `String::from_utf8_lossy` makes of bytes: their text, with U+FFFD in
/// place of whatever is not valid UTF-8.
pub uninterp spec fn lossy_text(bytes: Seq<u8>) -> Seq<char>;

/// What `str::to_uppercase` makes of a text.
pub uninterp spec fn uppercase(text: Seq<char>) -> Seq<char>;

/// Decodes bytes with `String::from_utf8_lossy`. The contract names the
/// result, and states what the documentation says of valid UTF-8: it is
/// decoded as it stands.
#[verifier::external_body]
pub(crate) fn utf8_lossy(bytes: &[u8]) -> (s: String)
    ensures
        s@ == lossy_text(bytes@),
        vstd::utf8::valid_utf8(bytes@) ==> s@ == vstd::utf8::decode_utf8(bytes@),
{
    String::from_utf8_lossy(bytes).into_owned()
}

/// Upper-cases a text with `str::to_uppercase`. The contract only names the
/// result.
#[verifier::external_body]
pub(crate) fn to_upper(text: &str) -> (s: String)
    ensures
        s@ == uppercase(text@),
{
    text.to_uppercase()
}

/// Builds a `String` from characters with `String::from_iter`; the contract
/// claims that the string holds exactly those characters, in order.
#[verifier::external_body]
pub(crate) fn text_of(chars: &[char]) -> (s: String)
    ensures
        s@ == chars@,
{
    String::from_iter(chars.iter())
}

} // verus!
