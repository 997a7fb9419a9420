//! PEM text: the base64 content between the BEGIN and END marker lines.
use vstd::prelude::*;
use crate::crypto::jws::{char_segments, segment_end, segment_start, separator_positions};

verus! {

/// `s` without one trailing '\r'.
pub open spec fn strip_cr(s: Seq<char>) -> Seq<char> {
    if s.len() > 0 && s.last() == '\r' {
        s.drop_last()
    } else {
        s
    }
}

/// The lines of `s` as `str::lines` yields them: the pieces between '\n's, without a
/// final empty piece, each piece that a '\n' ends losing one '\r' before it.
pub open spec fn text_lines(s: Seq<char>) -> Seq<Seq<char>> {
    let segs = char_segments(s, '\n');
    let n = segs.len();
    let kept = if segs[n - 1].len() == 0 {
        segs.take(n - 1)
    } else {
        segs
    };
    Seq::new(kept.len(), |i: int| if i < n - 1 { strip_cr(kept[i]) } else { kept[i] })
}

/// Whether `s` begins with `prefix`.
pub open spec fn starts_with(s: Seq<char>, prefix: Seq<char>) -> bool {
    prefix.len() <= s.len() && s.take(prefix.len() as int) == prefix
}

/// The first index from `from` on whose line begins with `prefix`.
pub open spec fn first_line_from(lines: Seq<Seq<char>>, prefix: Seq<char>, from: int) -> Option<int>
    decreases lines.len() - from,
{
    if from < 0 || from >= lines.len() {
        None
    } else if starts_with(lines[from], prefix) {
        Some(from)
    } else {
        first_line_from(lines, prefix, from + 1)
    }
}

/// The lines joined with nothing between them.
pub open spec fn concat_lines(lines: Seq<Seq<char>>) -> Seq<char>
    decreases lines.len(),
{
    if lines.len() == 0 {
        Seq::<char>::empty()
    } else {
        concat_lines(lines.drop_last()) + lines.last()
    }
}

/// What standard (padded) base64 decoding of `text` gives, or nothing where it fails.
pub uninterp spec fn base64_standard_decoding(text: Seq<char>) -> Option<Seq<u8>>;

/// `base64::prelude::BASE64_STANDARD.decode`, a failure giving nothing. Claims: the
/// result is the named decoding of `text`.
#[verifier::external_body]
fn base64_standard_decode(text: &str) -> (res: Option<Vec<u8>>)
    ensures
        match res {
            Some(v) => base64_standard_decoding(text@) == Some(v@),
            None => base64_standard_decoding(text@) is None,
        },
{
    base64::Engine::decode(&base64::prelude::BASE64_STANDARD, text).ok()
}

/// What decoding the PEM text `pem` gives: the base64 content of the lines strictly
/// between the first line that begins `-----BEGIN` and the first that begins
/// `-----END`, decoded; or why there is none.
pub open spec fn pem_contents(pem: Seq<char>) -> Result<Seq<u8>, Seq<char>> {
    let lines = text_lines(pem);
    match first_line_from(lines, "-----BEGIN"@, 0) {
        None => Err("missing BEGIN marker"@),
        Some(start) => match first_line_from(lines, "-----END"@, 0) {
            None => Err("missing END marker"@),
            Some(end) => if end <= start + 1 {
                Err("no content between markers"@)
            } else {
                match base64_standard_decoding(concat_lines(lines.subrange(start + 1, end))) {
                    Some(bytes) => Ok(bytes),
                    None => Err("invalid base64"@),
                }
            },
        },
    }
}

/// Strictly increasing positions end at least as far as their count minus one.
proof fn lemma_increasing_positions(dots: Seq<usize>)
    requires
        forall|k: int, l: int| 0 <= k < l < dots.len() ==> dots[k] < dots[l],
    ensures
        dots.len() > 0 ==> dots.last() >= dots.len() - 1,
    decreases dots.len(),
{
    if dots.len() > 1 {
        let d = dots.drop_last();
        assert forall|k: int, l: int| 0 <= k < l < d.len() implies d[k] < d[l] by {
            assert(d[k] == dots[k] && d[l] == dots[l]);
        }
        lemma_increasing_positions(d);
        assert(dots[dots.len() - 2] < dots[dots.len() - 1]);
    }
}

/// Whether `s` begins with `prefix`.
fn has_prefix(s: &str, prefix: &str) -> (r: bool)
    ensures
        r == starts_with(s@, prefix@),
{
    let n = s.unicode_len();
    let m = prefix.unicode_len();
    if m > n {
        return false;
    }
    let mut i: usize = 0;
    while i < m
        invariant
            n == s@.len(),
            m == prefix@.len(),
            m <= n,
            i <= m,
            forall|k: int| 0 <= k < i ==> s@[k] == prefix@[k],
        decreases m - i,
    {
        if s.get_char(i) != prefix.get_char(i) {
            assert(s@.take(m as int)[i as int] != prefix@[i as int]);
            return false;
        }
        i += 1;
    }
    assert(s@.take(m as int) =~= prefix@);
    true
}

/// Simple PEM decoder: extracts the base64 content between the BEGIN and END markers.
pub fn decode_pem(pem: &str) -> (res: Result<Vec<u8>, &'static str>)
    ensures
        match pem_contents(pem@) {
            Ok(bytes) => res matches Ok(v) && v@ == bytes,
            Err(m) => res matches Err(t) && t@ == m,
        },
{
    let ghost s = pem@;
    let n = pem.unicode_len();
    let breaks = separator_positions(pem, '\n');
    let ghost segs = char_segments(s, '\n');
    let ghost lines = text_lines(s);
    proof {
        lemma_increasing_positions(breaks@);
    }
    // the last piece is empty exactly when the text ends with '\n' (or is empty)
    let last_start: usize = if breaks.len() == 0 {
        0
    } else {
        breaks[breaks.len() - 1] + 1
    };
    assert(segs[breaks@.len() as int] == s.subrange(
        segment_start(breaks@, breaks@.len() as int),
        segment_end(breaks@, breaks@.len() as int, n as int),
    ));
    let line_count = if last_start == n {
        breaks.len()
    } else {
        breaks.len() + 1
    };
    assert(lines.len() == line_count);
    proof {
        reveal_strlit("-----BEGIN");
        reveal_strlit("-----END");
    }
    let begin = first_line_with(pem, &breaks, line_count, "-----BEGIN");
    let start = match begin {
        Some(k) => k,
        None => return Err("missing BEGIN marker"),
    };
    let finish = first_line_with(pem, &breaks, line_count, "-----END");
    let end = match finish {
        Some(k) => k,
        None => return Err("missing END marker"),
    };
    if end <= start + 1 {
        return Err("no content between markers");
    }
    let mut b64 = String::new();
    let mut k = start + 1;
    while k < end
        invariant
            s == pem@,
            lines == text_lines(s),
            breaks@.len() + 1 == char_segments(s, '\n').len(),
            n == s.len(),
            line_count == lines.len(),
            start + 1 <= k <= end <= line_count,
            line_count <= breaks@.len() + 1,
            forall|j: int| 0 <= j < breaks@.len() ==> breaks@[j] < s.len(),
            forall|j: int|
                0 <= j <= breaks@.len() ==> #[trigger] char_segments(s, '\n')[j] == s.subrange(
                    segment_start(breaks@, j),
                    segment_end(breaks@, j, n as int),
                ),
            forall|j: int| 0 <= j <= breaks@.len() ==> segment_start(breaks@, j) <= segment_end(breaks@, j, n as int),
            b64@ == concat_lines(lines.subrange(start + 1, k as int)),
        decreases end - k,
    {
        let line = line_at(pem, &breaks, line_count, k);
        b64.append(line);
        assert(lines.subrange(start + 1, k + 1).drop_last() =~= lines.subrange(start + 1, k as int));
        k += 1;
    }
    match base64_standard_decode(b64.as_str()) {
        Some(bytes) => Ok(bytes),
        None => Err("invalid base64"),
    }
}

/// Line `k` of `pem`, cut by the '\n' positions `breaks`.
fn line_at<'a>(pem: &'a str, breaks: &Vec<usize>, line_count: usize, k: usize) -> (line: &'a str)
    requires
        k < line_count,
        line_count == text_lines(pem@).len(),
        line_count <= breaks@.len() + 1,
        breaks@.len() + 1 == char_segments(pem@, '\n').len(),
        forall|j: int| 0 <= j < breaks@.len() ==> breaks@[j] < pem@.len(),
        forall|j: int|
            0 <= j <= breaks@.len() ==> #[trigger] char_segments(pem@, '\n')[j] == pem@.subrange(
                segment_start(breaks@, j),
                segment_end(breaks@, j, pem@.len() as int),
            ),
        forall|j: int|
            0 <= j <= breaks@.len() ==> segment_start(breaks@, j) <= segment_end(breaks@, j, pem@.len() as int),
    ensures
        line@ == text_lines(pem@)[k as int],
{
    let n = pem.unicode_len();
    let from = if k == 0 {
        0
    } else {
        breaks[k - 1] + 1
    };
    let to = if k < breaks.len() {
        breaks[k]
    } else {
        n
    };
    assert(char_segments(pem@, '\n')[k as int] == pem@.subrange(from as int, to as int));
    if k < breaks.len() && to > from && pem.get_char(to - 1) == '\r' {
        let line = pem.substring_char(from, to - 1);
        assert(line@ =~= strip_cr(pem@.subrange(from as int, to as int)));
        line
    } else {
        let line = pem.substring_char(from, to);
        line
    }
}

/// The index of the first of the `line_count` lines that begins with `prefix`.
fn first_line_with(pem: &str, breaks: &Vec<usize>, line_count: usize, prefix: &str) -> (r: Option<usize>)
    requires
        line_count == text_lines(pem@).len(),
        line_count <= breaks@.len() + 1,
        breaks@.len() + 1 == char_segments(pem@, '\n').len(),
        forall|j: int| 0 <= j < breaks@.len() ==> breaks@[j] < pem@.len(),
        forall|j: int|
            0 <= j <= breaks@.len() ==> #[trigger] char_segments(pem@, '\n')[j] == pem@.subrange(
                segment_start(breaks@, j),
                segment_end(breaks@, j, pem@.len() as int),
            ),
        forall|j: int|
            0 <= j <= breaks@.len() ==> segment_start(breaks@, j) <= segment_end(breaks@, j, pem@.len() as int),
    ensures
        match r {
            Some(k) => first_line_from(text_lines(pem@), prefix@, 0) == Some(k as int) && k < line_count,
            None => first_line_from(text_lines(pem@), prefix@, 0) is None,
        },
{
    let ghost lines = text_lines(pem@);
    let mut k: usize = 0;
    while k < line_count
        invariant
            line_count == lines.len(),
            lines == text_lines(pem@),
            line_count <= breaks@.len() + 1,
            breaks@.len() + 1 == char_segments(pem@, '\n').len(),
            forall|j: int| 0 <= j < breaks@.len() ==> breaks@[j] < pem@.len(),
            forall|j: int|
                0 <= j <= breaks@.len() ==> #[trigger] char_segments(pem@, '\n')[j] == pem@.subrange(
                    segment_start(breaks@, j),
                    segment_end(breaks@, j, pem@.len() as int),
                ),
            forall|j: int|
                0 <= j <= breaks@.len() ==> segment_start(breaks@, j) <= segment_end(breaks@, j, pem@.len() as int),
            k <= line_count,
            first_line_from(lines, prefix@, k as int) == first_line_from(lines, prefix@, 0),
        decreases line_count - k,
    {
        let line = line_at(pem, breaks, line_count, k);
        if has_prefix(line, prefix) {
            return Some(k);
        }
        k += 1;
    }
    None
}

} // verus!
