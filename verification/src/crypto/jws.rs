//! JWS (RFC 7515) compact-serialization handling.
use vstd::prelude::*;

verus! {

/// Failures of JWS decoding.
#[derive(Debug, PartialEq)]
pub enum JwsError {
    InvalidFormat,
    InvalidBase64(String),
    InvalidJson(String),
}

impl JwsError {
    /// The rendered error.
    pub fn to_string(&self) -> (s: String)
        ensures
            s@ == match self {
                JwsError::InvalidFormat => "InvalidFormat"@,
                JwsError::InvalidBase64(m) => "InvalidBase64: ["@ + m@ + "]"@,
                JwsError::InvalidJson(m) => "InvalidJson: ["@ + m@ + "]"@,
            },
    {
        match self {
            JwsError::InvalidFormat => String::from_str("InvalidFormat"),
            JwsError::InvalidBase64(m) => {
                let mut s = String::from_str("InvalidBase64: [");
                s.append(m.as_str());
                s.append("]");
                s
            },
            JwsError::InvalidJson(m) => {
                let mut s = String::from_str("InvalidJson: [");
                s.append(m.as_str());
                s.append("]");
                s
            },
        }
    }
}

/// The decoded JOSE header.
#[derive(Debug, Clone, PartialEq)]
pub struct JwtHeader {
    pub alg: Option<String>,
    pub x5c: Option<Vec<String>>,
}

/// The segments of `s` between its `sep` separators, as `str::split(sep)` yields them.
pub open spec fn char_segments(s: Seq<char>, sep: char) -> Seq<Seq<char>>
    decreases s.len(),
{
    if s.len() == 0 {
        seq![Seq::<char>::empty()]
    } else {
        let rest = char_segments(s.drop_last(), sep);
        if s.last() == sep {
            rest.push(Seq::<char>::empty())
        } else {
            rest.update(rest.len() - 1, rest.last().push(s.last()))
        }
    }
}

/// The segments of `s` between its '.' separators, as `str::split('.')` yields them.
pub open spec fn dot_segments(s: Seq<char>) -> Seq<Seq<char>> {
    char_segments(s, '.')
}

/// Splitting always yields at least one segment.
pub proof fn lemma_dot_segments_nonempty(s: Seq<char>)
    ensures
        dot_segments(s).len() >= 1,
    decreases s.len(),
{
    if s.len() > 0 {
        lemma_dot_segments_nonempty(s.drop_last());
    }
}

/// Whether `s` holds no '.'.
pub open spec fn dot_free(s: Seq<char>) -> bool {
    forall|i: int| 0 <= i < s.len() ==> s[i] != '.'
}

/// How many '.' characters `s` holds.
pub open spec fn dot_count(s: Seq<char>) -> nat
    decreases s.len(),
{
    if s.len() == 0 {
        0
    } else if s.last() == '.' {
        dot_count(s.drop_last()) + 1
    } else {
        dot_count(s.drop_last())
    }
}

/// The segments joined again with '.' between them.
pub open spec fn dot_join(parts: Seq<Seq<char>>) -> Seq<char>
    decreases parts.len(),
{
    if parts.len() == 0 {
        Seq::empty()
    } else if parts.len() == 1 {
        parts[0]
    } else {
        dot_join(parts.drop_last()) + seq!['.'] + parts.last()
    }
}

/// Splitting at '.' yields one segment more than there are dots, none of the segments
/// holds a dot, and joining them with '.' gives the text back.
pub proof fn lemma_dot_segments_shape(s: Seq<char>)
    ensures
        dot_segments(s).len() == dot_count(s) + 1,
        forall|i: int| 0 <= i < dot_segments(s).len() ==> dot_free(#[trigger] dot_segments(s)[i]),
        dot_join(dot_segments(s)) == s,
    decreases s.len(),
{
    if s.len() > 0 {
        let p = s.drop_last();
        lemma_dot_segments_shape(p);
        let rest = dot_segments(p);
        let segs = dot_segments(s);
        if s.last() == '.' {
            assert(segs == rest.push(Seq::<char>::empty()));
            assert(segs.drop_last() =~= rest);
            assert forall|i: int| 0 <= i < segs.len() implies dot_free(#[trigger] segs[i]) by {
                if i < rest.len() {
                    assert(segs[i] == rest[i]);
                }
            }
            assert(dot_join(segs) == dot_join(rest) + seq!['.'] + Seq::<char>::empty());
            assert(s =~= p + seq!['.'] + Seq::<char>::empty());
        } else {
            let last = rest.last().push(s.last());
            assert(segs == rest.update(rest.len() - 1, last));
            assert forall|i: int| 0 <= i < segs.len() implies dot_free(#[trigger] segs[i]) by {
                if i < rest.len() - 1 {
                    assert(segs[i] == rest[i]);
                } else {
                    assert(dot_free(rest[rest.len() - 1]));
                    assert forall|j: int| 0 <= j < last.len() implies last[j] != '.' by {
                        if j < rest.last().len() {
                            assert(last[j] == rest.last()[j]);
                        }
                    }
                }
            }
            if rest.len() == 1 {
                assert(dot_join(rest) == rest[0]);
                assert(s =~= p.push(s.last()));
            } else {
                assert(segs.drop_last() =~= rest.drop_last());
                assert(dot_join(segs) == dot_join(rest.drop_last()) + seq!['.'] + last);
                assert(dot_join(rest) == dot_join(rest.drop_last()) + seq!['.'] + rest.last());
                assert(s =~= p.push(s.last()));
                assert(dot_join(segs) =~= dot_join(rest).push(s.last()));
            }
        }
    }
}

/// [`split`] succeeds exactly on tokens with two '.' characters; its three parts then
/// hold no '.', and joined with '.' they are the token.
pub proof fn lemma_split_law(token: Seq<char>)
    ensures
        dot_segments(token).len() == 3 <==> dot_count(token) == 2,
        dot_segments(token).len() == 3 ==> {
            let parts = dot_segments(token);
            &&& dot_free(parts[0])
            &&& dot_free(parts[1])
            &&& dot_free(parts[2])
            &&& parts[0] + seq!['.'] + parts[1] + seq!['.'] + parts[2] == token
        },
{
    lemma_dot_segments_shape(token);
    let parts = dot_segments(token);
    if parts.len() == 3 {
        assert(dot_free(parts[0]));
        assert(dot_free(parts[1]));
        assert(dot_free(parts[2]));
        assert(parts.drop_last().drop_last() =~= seq![parts[0]]);
        assert(parts.drop_last().last() == parts[1]);
        assert(dot_join(parts.drop_last()) == dot_join(parts.drop_last().drop_last()) + seq!['.'] + parts[1]);
    }
}

/// Appending dot-free text extends the last segment only.
pub proof fn lemma_dot_segments_append_dot_free(prefix: Seq<char>, tail: Seq<char>)
    requires
        dot_free(tail),
    ensures
        dot_segments(prefix + tail) == dot_segments(prefix).update(
            dot_segments(prefix).len() - 1,
            dot_segments(prefix).last() + tail,
        ),
        dot_segments(prefix + tail).len() == dot_segments(prefix).len(),
    decreases tail.len(),
{
    lemma_dot_segments_nonempty(prefix);
    if tail.len() == 0 {
        assert(prefix + tail =~= prefix);
        assert(dot_segments(prefix).last() + tail =~= dot_segments(prefix).last());
        assert(dot_segments(prefix).update(dot_segments(prefix).len() - 1, dot_segments(prefix).last())
            =~= dot_segments(prefix));
    } else {
        let t = tail.drop_last();
        assert forall|i: int| 0 <= i < t.len() implies t[i] != '.' by {
            assert(t[i] == tail[i]);
        }
        lemma_dot_segments_append_dot_free(prefix, t);
        assert((prefix + tail).drop_last() =~= prefix + t);
        assert((prefix + tail).last() == tail.last());
        assert(tail[tail.len() - 1] != '.');
        assert(dot_free(t));
        let d = dot_segments(prefix);
        let rest = dot_segments(prefix + t);
        assert(rest.last() == d.last() + t);
        assert(rest.last().push(tail.last()) =~= d.last() + tail);
        assert(dot_segments(prefix).last() + t + seq![tail.last()] =~= dot_segments(prefix).last() + tail);
        assert(dot_segments(prefix + tail) =~= dot_segments(prefix).update(
            dot_segments(prefix).len() - 1,
            dot_segments(prefix).last() + tail,
        ));
    }
}

/// Joining three dot-free segments with '.' and splitting again gives the three segments back.
pub proof fn lemma_split_joined_segments(a: Seq<char>, b: Seq<char>, c: Seq<char>)
    requires
        dot_free(a),
        dot_free(b),
        dot_free(c),
    ensures
        dot_segments(a + seq!['.'] + b + seq!['.'] + c) == seq![a, b, c],
{
    let e = Seq::<char>::empty();
    assert(dot_segments(e) == seq![e]);
    lemma_dot_segments_append_dot_free(e, a);
    assert(e + a =~= a);
    assert(dot_segments(a) =~= seq![a]);
    let a1 = a + seq!['.'];
    assert(a1.drop_last() =~= a);
    assert(dot_segments(a1) =~= seq![a, e]);
    lemma_dot_segments_append_dot_free(a1, b);
    assert(e + b =~= b);
    assert(dot_segments(a1 + b) =~= seq![a, b]);
    let b1 = a1 + b + seq!['.'];
    assert(b1.drop_last() =~= a1 + b);
    assert(dot_segments(b1) =~= seq![a, b, e]);
    lemma_dot_segments_append_dot_free(b1, c);
    assert(e + c =~= c);
    assert(a + seq!['.'] + b + seq!['.'] + c =~= b1 + c);
    assert(dot_segments(b1 + c) =~= seq![a, b, c]);
}


/// Where segment `k` starts, given the positions of the separators before it.
pub open spec fn segment_start(dots: Seq<usize>, k: int) -> int {
    if k == 0 {
        0
    } else {
        dots[k - 1] + 1
    }
}

/// Where segment `k` ends, given the separator positions and the scanned length.
pub open spec fn segment_end(dots: Seq<usize>, k: int, scanned: int) -> int {
    if k < dots.len() {
        dots[k] as int
    } else {
        scanned
    }
}

/// The positions of the `sep` separators in `token`, which cut it into `char_segments`.
pub fn separator_positions(token: &str, sep: char) -> (dots: Vec<usize>)
    ensures
        forall|k: int, l: int| 0 <= k < l < dots@.len() ==> dots@[k] < dots@[l],
        char_segments(token@, sep).len() == dots@.len() + 1,
        dots@.len() <= token@.len(),
        forall|k: int| 0 <= k < dots@.len() ==> dots@[k] < token@.len(),
        forall|k: int|
            0 <= k <= dots@.len() ==> #[trigger] char_segments(token@, sep)[k] == token@.subrange(
                segment_start(dots@, k),
                segment_end(dots@, k, token@.len() as int),
            ),
        forall|k: int|
            0 <= k <= dots@.len() ==> segment_start(dots@, k) <= segment_end(dots@, k, token@.len() as int),
{
    let n = token.unicode_len();
    let ghost s = token@;
    let mut dots: Vec<usize> = Vec::new();
    let mut i: usize = 0;
    assert(s.take(0) =~= Seq::<char>::empty());
    while i < n
        invariant
            n == s.len(),
            s == token@,
            i <= n,
            dots@.len() <= i,
            char_segments(s.take(i as int), sep).len() == dots@.len() + 1,
            forall|k: int| 0 <= k < dots@.len() ==> dots@[k] < i,
            forall|k: int, l: int| 0 <= k < l < dots@.len() ==> dots@[k] < dots@[l],
            forall|k: int|
                0 <= k <= dots@.len() ==> #[trigger] char_segments(s.take(i as int), sep)[k] == s.subrange(
                    segment_start(dots@, k),
                    segment_end(dots@, k, i as int),
                ),
            forall|k: int| 0 <= k <= dots@.len() ==> segment_start(dots@, k) <= segment_end(dots@, k, i as int),
        decreases n - i,
    {
        let c = token.get_char(i);
        let ghost old_dots = dots@;
        let ghost prev = char_segments(s.take(i as int), sep);
        assert(s.take(i + 1).drop_last() =~= s.take(i as int));
        assert(s.take(i + 1).last() == c);
        if c == sep {
            dots.push(i);
            assert forall|k: int| 0 <= k <= dots@.len() implies #[trigger] char_segments(s.take(i + 1), sep)[k]
                == s.subrange(segment_start(dots@, k), segment_end(dots@, k, i + 1)) by {
                if k < old_dots.len() {
                    assert(prev[k] == s.subrange(segment_start(old_dots, k), segment_end(old_dots, k, i as int)));
                } else if k == old_dots.len() {
                    assert(prev[k] == s.subrange(segment_start(old_dots, k), segment_end(old_dots, k, i as int)));
                } else {
                    assert(s.subrange(i + 1, i + 1) =~= Seq::<char>::empty());
                }
            }
        } else {
            assert forall|k: int| 0 <= k <= dots@.len() implies #[trigger] char_segments(s.take(i + 1), sep)[k]
                == s.subrange(segment_start(dots@, k), segment_end(dots@, k, i + 1)) by {
                assert(prev[k] == s.subrange(segment_start(old_dots, k), segment_end(old_dots, k, i as int)));
                if k == dots@.len() {
                    assert(s.subrange(segment_start(dots@, k), i + 1) =~= s.subrange(
                        segment_start(dots@, k),
                        i as int,
                    ).push(c));
                }
            }
        }
        i += 1;
    }
    assert(s.take(n as int) =~= s);
    dots
}

/// The positions of the '.' separators in `token`, which cut it into `dot_segments`.
pub fn dot_positions(token: &str) -> (dots: Vec<usize>)
    ensures
        dot_segments(token@).len() == dots@.len() + 1,
        dots@.len() <= token@.len(),
        forall|k: int| 0 <= k < dots@.len() ==> dots@[k] < token@.len(),
        forall|k: int|
            0 <= k <= dots@.len() ==> #[trigger] dot_segments(token@)[k] == token@.subrange(
                segment_start(dots@, k),
                segment_end(dots@, k, token@.len() as int),
            ),
        forall|k: int|
            0 <= k <= dots@.len() ==> segment_start(dots@, k) <= segment_end(dots@, k, token@.len() as int),
{
    separator_positions(token, '.')
}

/// Splits a compact JWS into exactly three segments.
pub fn split(token: &str) -> (res: Result<[&str; 3], JwsError>)
    ensures
        res is Ok <==> dot_segments(token@).len() == 3,
        res matches Ok(parts) ==> parts[0]@ == dot_segments(token@)[0] && parts[1]@ == dot_segments(
            token@,
        )[1] && parts[2]@ == dot_segments(token@)[2],
        res matches Err(e) ==> e == JwsError::InvalidFormat,
{
    let dots = dot_positions(token);
    let ghost s = token@;
    if dots.len() != 2 {
        return Err(JwsError::InvalidFormat);
    }
    let n = token.unicode_len();
    assert(segment_start(dots@, 0) <= segment_end(dots@, 0, n as int));
    assert(segment_start(dots@, 1) <= segment_end(dots@, 1, n as int));
    assert(segment_start(dots@, 2) <= segment_end(dots@, 2, n as int));
    let first = token.substring_char(0, dots[0]);
    let second = token.substring_char(dots[0] + 1, dots[1]);
    let third = token.substring_char(dots[1] + 1, n);
    assert(dot_segments(s)[0] == s.subrange(segment_start(dots@, 0), segment_end(dots@, 0, n as int)));
    assert(dot_segments(s)[1] == s.subrange(segment_start(dots@, 1), segment_end(dots@, 1, n as int)));
    assert(dot_segments(s)[2] == s.subrange(segment_start(dots@, 2), segment_end(dots@, 2, n as int)));
    Ok([first, second, third])
}

/// The unpadded base64url text of `data` (RFC 4648 §5, no `=` padding).
pub uninterp spec fn base64url_encoding(data: Seq<u8>) -> Seq<char>;

/// What decoding `text` as unpadded base64url gives: the bytes, or the rendered `DecodeError`.
pub uninterp spec fn base64url_decoded(text: Seq<char>) -> Result<Seq<u8>, Seq<char>>;

/// Decoded bytes as a successful decoding.
pub open spec fn bytes_ok(b: Seq<u8>) -> Result<Seq<u8>, Seq<char>> {
    Ok(b)
}

/// A rendered failure as a failed decoding.
pub open spec fn text_err(m: Seq<char>) -> Result<Seq<u8>, Seq<char>> {
    Err(m)
}

/// A character of the URL-safe base64 alphabet.
pub open spec fn is_base64url_char(c: char) -> bool {
    ('A' <= c <= 'Z') || ('a' <= c <= 'z') || ('0' <= c <= '9') || c == '-' || c == '_'
}

/// Every character of `s` is from the URL-safe base64 alphabet.
pub open spec fn is_base64url_text(s: Seq<char>) -> bool {
    forall|i: int| 0 <= i < s.len() ==> is_base64url_char(#[trigger] s[i])
}

/// `base64::engine::general_purpose::URL_SAFE_NO_PAD.encode`. Claims: the text is the
/// named encoding of the bytes, uses only the URL-safe alphabet (the crate's
/// `URL_SAFE` alphabet with padding switched off), and decodes with the same engine
/// back to the bytes (the engine's round trip).
#[verifier::external_body]
fn url_safe_no_pad_encode(data: &[u8]) -> (res: String)
    ensures
        res@ == base64url_encoding(data@),
        is_base64url_text(res@),
        base64url_decoded(res@) == bytes_ok(data@),
{
    base64::Engine::encode(&base64::engine::general_purpose::URL_SAFE_NO_PAD, data)
}

/// `base64::engine::general_purpose::URL_SAFE_NO_PAD.decode`, its error rendered with
/// `to_string`. Claims: the result is the named decoding of the text.
#[verifier::external_body]
fn url_safe_no_pad_decode(text: &str) -> (res: Result<Vec<u8>, String>)
    ensures
        res matches Ok(v) ==> base64url_decoded(text@) == bytes_ok(v@),
        res matches Err(m) ==> base64url_decoded(text@) == text_err(m@),
{
    match base64::Engine::decode(&base64::engine::general_purpose::URL_SAFE_NO_PAD, text) {
        Ok(v) => Ok(v),
        Err(e) => Err(e.to_string()),
    }
}

/// `s` without its trailing '=' characters.
pub open spec fn trim_padding(s: Seq<char>) -> Seq<char>
    decreases s.len(),
{
    if s.len() > 0 && s.last() == '=' {
        trim_padding(s.drop_last())
    } else {
        s
    }
}

/// base64url, unpadded (RFC 7515 §2).
pub fn b64url_encode(data: &[u8]) -> (res: String)
    ensures
        res@ == base64url_encoding(data@),
        is_base64url_text(res@),
        trim_padding(res@) == res@,
        base64url_decoded(trim_padding(res@)) == Ok::<Seq<u8>, Seq<char>>(data@),
{
    let res = url_safe_no_pad_encode(data);
    proof {
        if res@.len() > 0 {
            assert(is_base64url_char(res@[res@.len() - 1]));
        }
    }
    res
}

/// base64url decode, tolerating both padded and unpadded input.
pub fn b64url_decode(data: &str) -> (res: Result<Vec<u8>, JwsError>)
    ensures
        match res {
            Ok(v) => base64url_decoded(trim_padding(data@)) == Ok::<Seq<u8>, Seq<char>>(v@),
            Err(e) => e matches JwsError::InvalidBase64(m) && base64url_decoded(trim_padding(data@))
                == Err::<Seq<u8>, Seq<char>>(m@),
        },
{
    let n = data.unicode_len();
    let mut k = n;
    assert(data@.take(n as int) =~= data@);
    while k > 0 && data.get_char(k - 1) == '='
        invariant
            k <= n == data@.len(),
            trim_padding(data@.take(k as int)) == trim_padding(data@),
        decreases k,
    {
        assert(data@.take(k as int).drop_last() =~= data@.take(k - 1));
        k -= 1;
    }
    let trimmed = data.substring_char(0, k);
    proof {
        assert(trimmed@ =~= data@.take(k as int));
        if k > 0 {
            assert(data@.take(k as int).last() != '=');
        }
        assert(trimmed@ == trim_padding(data@));
    }
    match url_safe_no_pad_decode(trimmed) {
        Ok(v) => Ok(v),
        Err(m) => Err(JwsError::InvalidBase64(m)),
    }
}

/// The bytes covered by the signature: `header.payload`.
pub fn signing_input(token: &str) -> (res: Result<String, JwsError>)
    ensures
        res is Ok <==> dot_segments(token@).len() == 3,
        res matches Ok(s) ==> s@ == dot_segments(token@)[0] + seq!['.'] + dot_segments(token@)[1],
        res matches Err(e) ==> e == JwsError::InvalidFormat,
{
    let parts = split(token)?;
    let mut s = String::from_str(parts[0]);
    proof {
        reveal_strlit(".");
    }
    s.append(".");
    s.append(parts[1]);
    Ok(s)
}

/// The decoded payload segment.
pub fn decode_payload_bytes(token: &str) -> (res: Result<Vec<u8>, JwsError>)
    ensures
        dot_segments(token@).len() != 3 ==> res == Err::<Vec<u8>, JwsError>(JwsError::InvalidFormat),
        dot_segments(token@).len() == 3 ==> match res {
            Ok(v) => base64url_decoded(trim_padding(dot_segments(token@)[1])) == Ok::<Seq<u8>, Seq<char>>(v@),
            Err(e) => e matches JwsError::InvalidBase64(m) && base64url_decoded(
                trim_padding(dot_segments(token@)[1]),
            ) == Err::<Seq<u8>, Seq<char>>(m@),
        },
{
    let parts = split(token)?;
    b64url_decode(parts[1])
}

/// The decoded signature segment.
pub fn decode_signature_bytes(token: &str) -> (res: Result<Vec<u8>, JwsError>)
    ensures
        dot_segments(token@).len() != 3 ==> res == Err::<Vec<u8>, JwsError>(JwsError::InvalidFormat),
        dot_segments(token@).len() == 3 ==> match res {
            Ok(v) => base64url_decoded(trim_padding(dot_segments(token@)[2])) == Ok::<Seq<u8>, Seq<char>>(v@),
            Err(e) => e matches JwsError::InvalidBase64(m) && base64url_decoded(
                trim_padding(dot_segments(token@)[2]),
            ) == Err::<Seq<u8>, Seq<char>>(m@),
        },
{
    let parts = split(token)?;
    b64url_decode(parts[2])
}

/// Assembles a compact JWS from already-encoded header and payload segments
/// plus a raw signature.
pub fn encode_compact(encoded_header: &str, encoded_payload: &str, signature: &[u8]) -> (res: String)
    ensures
        res@ == encoded_header@ + seq!['.'] + encoded_payload@ + seq!['.'] + base64url_encoding(signature@),
        is_base64url_text(base64url_encoding(signature@)),
        base64url_decoded(trim_padding(base64url_encoding(signature@))) == Ok::<Seq<u8>, Seq<char>>(signature@),
        is_base64url_text(encoded_header@) && is_base64url_text(encoded_payload@) ==> dot_segments(res@) == seq![
            encoded_header@,
            encoded_payload@,
            base64url_encoding(signature@),
        ],
{
    let mut s = String::from_str(encoded_header);
    proof {
        reveal_strlit(".");
    }
    s.append(".");
    s.append(encoded_payload);
    s.append(".");
    let sig = b64url_encode(signature);
    s.append(sig.as_str());
    assert(s@ =~= encoded_header@ + seq!['.'] + encoded_payload@ + seq!['.'] + sig@);
    proof {
        if is_base64url_text(encoded_header@) && is_base64url_text(encoded_payload@) {
            lemma_base64url_text_dot_free(encoded_header@);
            lemma_base64url_text_dot_free(encoded_payload@);
            lemma_base64url_text_dot_free(sig@);
            lemma_split_joined_segments(encoded_header@, encoded_payload@, sig@);
        }
    }
    s
}

/// Base64url text never holds a '.', so it can stand as a JWS segment.
pub proof fn lemma_base64url_text_dot_free(s: Seq<char>)
    requires
        is_base64url_text(s),
    ensures
        dot_free(s),
{
    assert forall|i: int| 0 <= i < s.len() implies s[i] != '.' by {
        assert(is_base64url_char(s[i]));
    }
}

} // verus!
