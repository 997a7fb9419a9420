//! Dotted object identifiers and the DER content octets they encode to.
use vstd::prelude::*;
use crate::crypto::jws::{dot_positions, dot_segments, segment_end, segment_start};

verus! {

/// Whether `c` is an ASCII decimal digit.
pub open spec fn is_decimal_digit(c: char) -> bool {
    '0' <= c <= '9'
}

/// The number written by the decimal digits `ds`.
pub open spec fn decimal_value(ds: Seq<char>) -> nat
    decreases ds.len(),
{
    if ds.len() == 0 {
        0
    } else {
        decimal_value(ds.drop_last()) * 10 + ((ds.last() as nat) - ('0' as nat)) as nat
    }
}

/// `s` without a leading '+'.
pub open spec fn digits_part(s: Seq<char>) -> Seq<char> {
    if s.len() > 0 && s[0] == '+' {
        s.drop_first()
    } else {
        s
    }
}

/// Whether every character of `ds` is an ASCII decimal digit.
pub open spec fn all_decimal_digits(ds: Seq<char>) -> bool {
    forall|i: int| 0 <= i < ds.len() ==> is_decimal_digit(#[trigger] ds[i])
}

/// What `str::parse::<u64>` makes of `s`: an optional leading '+', then one or more
/// ASCII digits whose value fits in a `u64`.
pub open spec fn parse_u64(s: Seq<char>) -> Option<u64> {
    let ds = digits_part(s);
    if ds.len() == 0 || !all_decimal_digits(ds) {
        None
    } else if decimal_value(ds) > u64::MAX {
        None
    } else {
        Some(decimal_value(ds) as u64)
    }
}

proof fn lemma_decimal_value_grows(ds: Seq<char>, c: char)
    requires
        is_decimal_digit(c),
    ensures
        decimal_value(ds.push(c)) >= decimal_value(ds),
        decimal_value(ds.push(c)) == decimal_value(ds) * 10 + ((c as nat) - ('0' as nat)),
{
    assert(ds.push(c).drop_last() =~= ds);
}

/// Parses a decimal `u64` as `str::parse::<u64>` does.
pub fn parse_decimal_u64(s: &str) -> (r: Option<u64>)
    ensures
        r == parse_u64(s@),
{
    let n = s.unicode_len();
    let mut start: usize = 0;
    if n > 0 && s.get_char(0) == '+' {
        start = 1;
    }
    let ghost ds = digits_part(s@);
    assert(ds =~= s@.subrange(start as int, n as int));
    if start == n {
        return None;
    }
    let mut value: u64 = 0;
    let mut i: usize = start;
    let mut overflowed = false;
    assert(ds.take(0) =~= Seq::<char>::empty());
    while i < n
        invariant
            n == s@.len(),
            start <= i <= n,
            ds =~= s@.subrange(start as int, n as int),
            ds == digits_part(s@),
            forall|j: int| 0 <= j < i - start ==> is_decimal_digit(#[trigger] ds[j]),
            !overflowed ==> value as nat == decimal_value(ds.take(i - start)),
            overflowed ==> decimal_value(ds.take(i - start)) > u64::MAX,
        decreases n - i,
    {
        let c = s.get_char(i);
        assert(ds[i - start] == c);
        if !('0' <= c && c <= '9') {
            assert(!is_decimal_digit(ds[i - start]));
            assert(!all_decimal_digits(ds));
            return None;
        }
        let d = (c as u32 - '0' as u32) as u64;
        assert(ds.take(i - start + 1) =~= ds.take(i - start).push(c));
        proof {
            lemma_decimal_value_grows(ds.take(i - start), c);
        }
        if !overflowed {
            match value.checked_mul(10) {
                Some(v10) => match v10.checked_add(d) {
                    Some(v) => {
                        value = v;
                    },
                    None => {
                        overflowed = true;
                    },
                },
                None => {
                    overflowed = true;
                },
            }
        }
        i += 1;
    }
    assert(ds.take(n - start) =~= ds);
    if overflowed {
        None
    } else {
        Some(value)
    }
}

/// The arcs of a dotted OID, when every segment parses as a `u64`.
pub open spec fn parse_arcs(oid: Seq<char>) -> Option<Seq<u64>> {
    let segs = dot_segments(oid);
    if forall|i: int| 0 <= i < segs.len() ==> (#[trigger] parse_u64(segs[i])) is Some {
        Some(Seq::new(segs.len(), |i: int| parse_u64(segs[i]).unwrap()))
    } else {
        None
    }
}

/// The continuation octets that carry `w`, least significant first, high bit set.
pub open spec fn continuation_octets(w: nat) -> Seq<u8>
    decreases w,
{
    if w == 0 {
        Seq::empty()
    } else {
        seq![((w % 128) + 128) as u8] + continuation_octets(w / 128)
    }
}

/// The base-128 octets of one arc, least significant first: the final octet
/// (high bit clear) and then the continuation octets.
pub open spec fn arc_octets_reversed(v: nat) -> Seq<u8> {
    seq![(v % 128) as u8] + continuation_octets(v / 128)
}

/// The DER content octets of the arcs after the first two, each in base 128,
/// most significant octet first, all but the last octet of an arc with the high bit set.
pub open spec fn later_arcs_octets(arcs: Seq<u64>) -> Seq<u8>
    decreases arcs.len(),
{
    if arcs.len() == 0 {
        Seq::empty()
    } else {
        later_arcs_octets(arcs.drop_last()) + arc_octets_reversed(arcs.last() as nat).reverse()
    }
}

/// Whether the first subidentifier of the OID can be computed: the first two arcs combine
/// into `40 * first + second` without leaving `u64`.
pub open spec fn oid_first_subidentifier_fits(oid: Seq<char>) -> bool {
    parse_arcs(oid) matches Some(arcs) ==> (arcs.len() >= 2 ==> arcs[0] * 40 + arcs[1] <= u64::MAX)
}

/// The DER content octets of a dotted OID: the base-128 encoding of the first
/// subidentifier `40 * first + second`, followed by the base-128 encodings of the
/// remaining arcs; none when a segment is not a number or there are fewer than two arcs.
pub open spec fn oid_content_octets(oid: Seq<char>) -> Option<Seq<u8>> {
    match parse_arcs(oid) {
        None => None,
        Some(arcs) => if arcs.len() < 2 {
            None
        } else {
            Some(arc_octets_reversed((arcs[0] * 40 + arcs[1]) as nat).reverse() + later_arcs_octets(arcs.subrange(2, arcs.len() as int)))
        },
    }
}

fn arc_octets(part: u64) -> (out: Vec<u8>)
    ensures
        out@ == arc_octets_reversed(part as nat).reverse(),
{
    let mut stack: Vec<u8> = Vec::new();
    let mut v = part;
    assert((v & 0x7f) as u8 == v % 128) by (bit_vector);
    stack.push((v & 0x7f) as u8);
    assert(v >> 7 == v / 128) by (bit_vector);
    v >>= 7;
    while v > 0
        invariant
            arc_octets_reversed(part as nat) == stack@ + continuation_octets(v as nat),
        decreases v,
    {
        assert(((v & 0x7f) as u8) | 0x80 == (v % 128) + 128) by (bit_vector);
        assert(v >> 7 == v / 128) by (bit_vector);
        let ghost before = stack@;
        stack.push(((v & 0x7f) as u8) | 0x80);
        assert(before + continuation_octets(v as nat) =~= stack@ + continuation_octets((v / 128) as nat));
        v >>= 7;
    }
    assert(stack@ + continuation_octets(0) =~= stack@);
    let mut out: Vec<u8> = Vec::new();
    let mut j = stack.len();
    while j > 0
        invariant
            j <= stack@.len(),
            out@ =~= stack@.subrange(j as int, stack@.len() as int).reverse(),
        decreases j,
    {
        j -= 1;
        out.push(stack[j]);
        assert(stack@.subrange(j as int, stack@.len() as int).reverse() =~= stack@.subrange(
            j + 1,
            stack@.len() as int,
        ).reverse().push(stack@[j as int]));
    }
    assert(stack@.subrange(0, stack@.len() as int) =~= stack@);
    out
}

/// Converts a dotted OID string ("1.2.840.113635.100.6.11.1") to the raw
/// DER content bytes of the OBJECT IDENTIFIER.
pub fn oid_to_der_bytes(oid: &str) -> (res: Option<Vec<u8>>)
    requires
        oid_first_subidentifier_fits(oid@),
    ensures
        res is Some <==> oid_content_octets(oid@) is Some,
        res matches Some(v) ==> oid_content_octets(oid@) == Some(v@),
{
    let dots = dot_positions(oid);
    let ghost segs = dot_segments(oid@);
    let n = oid.unicode_len();
    let mut parts: Vec<u64> = Vec::new();
    let mut k: usize = 0;
    while k < dots.len()
        invariant
            n == oid@.len(),
            segs == dot_segments(oid@),
            segs.len() == dots@.len() + 1,
            forall|a: int| 0 <= a < dots@.len() ==> dots@[a] < n,
            forall|a: int|
                0 <= a <= dots@.len() ==> #[trigger] segs[a] == oid@.subrange(
                    segment_start(dots@, a),
                    segment_end(dots@, a, n as int),
                ),
            forall|a: int| 0 <= a <= dots@.len() ==> segment_start(dots@, a) <= segment_end(dots@, a, n as int),
            k <= dots@.len(),
            parts@.len() == k,
            forall|a: int| 0 <= a < k ==> parse_u64(#[trigger] segs[a]) == Some(parts@[a]),
        decreases dots@.len() - k,
    {
        assert(segment_start(dots@, k as int) <= segment_end(dots@, k as int, n as int));
        let from = if k == 0 {
            0
        } else {
            dots[k - 1] + 1
        };
        let seg = oid.substring_char(from, dots[k]);
        assert(seg@ == segs[k as int]);
        match parse_decimal_u64(seg) {
            Some(p) => parts.push(p),
            None => {
                assert(!(parse_u64(segs[k as int]) is Some));
                return None;
            },
        }
        k += 1;
    }
    assert(segment_start(dots@, k as int) <= segment_end(dots@, k as int, n as int));
    let last_from = if k == 0 {
        0
    } else {
        dots[k - 1] + 1
    };
    let last = oid.substring_char(last_from, n);
    assert(last@ == segs[k as int]);
    match parse_decimal_u64(last) {
        Some(p) => parts.push(p),
        None => {
            assert(!(parse_u64(segs[k as int]) is Some));
            return None;
        },
    }
    let ghost arcs = Seq::new(segs.len(), |i: int| parse_u64(segs[i]).unwrap());
    assert(parse_arcs(oid@) == Some(arcs));
    assert(arcs =~= parts@);
    if parts.len() < 2 {
        return None;
    }
    assert(parts@[0] * 40 + parts@[1] <= u64::MAX);
    let combined: u64 = parts[0] * 40 + parts[1];
    let mut out = arc_octets(combined);
    let ghost first = out@;
    assert(parts@.subrange(2, 2) =~= Seq::<u64>::empty());
    assert(out@ =~= first + later_arcs_octets(parts@.subrange(2, 2)));
    let mut i: usize = 2;
    while i < parts.len()
        invariant
            2 <= i <= parts@.len(),
            first == arc_octets_reversed((parts@[0] * 40 + parts@[1]) as nat).reverse(),
            out@ == first + later_arcs_octets(parts@.subrange(2, i as int)),
        decreases parts@.len() - i,
    {
        let enc = arc_octets(parts[i]);
        let ghost before = out@;
        let mut j: usize = 0;
        while j < enc.len()
            invariant
                j <= enc@.len(),
                out@ == before + enc@.take(j as int),
            decreases enc@.len() - j,
        {
            out.push(enc[j]);
            assert(enc@.take(j + 1) =~= enc@.take(j as int).push(enc@[j as int]));
            j += 1;
        }
        assert(enc@.take(enc@.len() as int) =~= enc@);
        assert(parts@.subrange(2, i + 1).drop_last() =~= parts@.subrange(2, i as int));
        i += 1;
    }
    Some(out)
}

} // verus!
