use vstd::prelude::*;
use vstd::slice::slice_subrange;
use vstd::utf8::{decode_utf8, valid_utf8};

verus! {

/// ASN.1 decoding error.
#[derive(Debug, PartialEq)]
pub enum ASN1Error {
    ASN1DecodeError(String),
}

impl View for ASN1Error {
    type V = Seq<char>;

    /// The message carried by the error.
    open spec fn view(&self) -> Seq<char> {
        match self {
            ASN1Error::ASN1DecodeError(m) => m@,
        }
    }
}

// ASN.1 universal and context-specific tags
pub const TAG_INTEGER: u8 = 0x02;
pub const TAG_BIT_STRING: u8 = 0x03;
pub const TAG_OCTET_STRING: u8 = 0x04;
pub const TAG_OID: u8 = 0x06;
pub const TAG_UTF8_STRING: u8 = 0x0C;
pub const TAG_SEQUENCE: u8 = 0x30;
pub const TAG_SET: u8 = 0x31;
pub const TAG_CONTEXT_SPECIFIC_0: u8 = 0xA0;
pub const TAG_CONTEXT_SPECIFIC_CONSTRUCTED_4: u8 = 0x24;

/// The length value that stands for the indefinite-length form.
pub open spec fn indefinite() -> usize {
    usize::MAX
}

/// The long-form length octets folded into a `usize`, most significant first;
/// bits shifted past the width of `usize` are dropped.
pub open spec fn length_octets_value(octets: Seq<u8>) -> usize
    decreases octets.len(),
{
    if octets.len() == 0 {
        0
    } else {
        ((length_octets_value(octets.drop_last()) << 8usize) | (octets.last() as usize)) as usize
    }
}

/// The unsigned big-endian number written by `bytes`.
pub open spec fn big_endian_value(bytes: Seq<u8>) -> nat
    decreases bytes.len(),
{
    if bytes.len() == 0 {
        0
    } else {
        big_endian_value(bytes.drop_last()) * 256 + bytes.last() as nat
    }
}

/// What reading the identifier and length octets at `offset` yields:
/// the tag, the length (`usize::MAX` for the indefinite form) and the offset of the content,
/// or the message of the failure.
pub open spec fn tlv_header(data: Seq<u8>, offset: int) -> Result<(u8, usize, int), Seq<char>> {
    if offset < 0 || offset >= data.len() || offset + 1 >= data.len() {
        Err("Unexpected end of data"@)
    } else {
        let tag = data[offset];
        let first = data[offset + 1];
        if first == 0x80 {
            Ok((tag, indefinite(), offset + 2))
        } else if first > 0x80 {
            let n = first - 0x80;
            if offset + 2 + n > data.len() {
                Err("Invalid length encoding"@)
            } else {
                Ok((tag, length_octets_value(data.subrange(offset + 2, offset + 2 + n)), offset + 2 + n))
            }
        } else {
            Ok((tag, first as usize, offset + 2))
        }
    }
}

/// The view of an exec result of `read_tlv`.
pub open spec fn tlv_result_view(r: Result<(u8, usize, usize), ASN1Error>) -> Result<(u8, usize, int), Seq<char>> {
    match r {
        Ok((t, l, o)) => Ok((t, l, o as int)),
        Err(e) => Err(e@),
    }
}

/// Shifting one more octet into an accumulator that has room for it.
pub proof fn lemma_shift_in_octet(acc: usize, b: u8)
    requires
        acc * 256 <= usize::MAX,
    ensures
        ((acc << 8usize) | (b as usize)) as int == acc as int * 256 + b as int,
{
    assert((acc << 8usize) | (b as usize) == (acc << 8usize) + (b as usize)) by (bit_vector);
    vstd::arithmetic::power2::lemma2_to64();
    vstd::bits::lemma_usize_shl_is_mul(acc, 8);
}

/// Long-form length octets decode to the big-endian number they write whenever that number fits in a `usize`.
pub proof fn lemma_length_octets_big_endian(octets: Seq<u8>)
    requires
        big_endian_value(octets) <= usize::MAX,
    ensures
        length_octets_value(octets) as nat == big_endian_value(octets),
    decreases octets.len(),
{
    if octets.len() > 0 {
        let prefix = octets.drop_last();
        assert(big_endian_value(prefix) * 256 <= usize::MAX);
        lemma_length_octets_big_endian(prefix);
        lemma_shift_in_octet(length_octets_value(prefix), octets.last());
    }
}

fn decode_error(msg: &str) -> (e: ASN1Error)
    ensures
        e@ == msg@,
{
    ASN1Error::ASN1DecodeError(String::from_str(msg))
}

/// Reads ASN.1 TLV (Tag-Length-Value) structure from data
///
/// Returns: (tag, length, next_offset)
pub fn read_tlv(data: &[u8], offset: usize) -> (res: Result<(u8, usize, usize), ASN1Error>)
    ensures
        tlv_result_view(res) == tlv_header(data@, offset as int),
        res matches Ok((_, _, next)) ==> offset + 2 <= next <= data@.len(),
{
    if offset >= data.len() {
        return Err(decode_error("Unexpected end of data"));
    }
    let tag = data[offset];
    let mut current_offset = offset + 1;

    if current_offset >= data.len() {
        return Err(decode_error("Unexpected end of data"));
    }

    let first_length_byte = data[current_offset];
    current_offset += 1;

    let length = if first_length_byte == 0x80 {
        // Indefinite length
        usize::MAX
    } else if first_length_byte > 0x80 {
        // Long form
        let num_octets = (first_length_byte - 0x80) as usize;
        if num_octets > data.len() - current_offset {
            return Err(decode_error("Invalid length encoding"));
        }
        let ghost octets = data@.subrange(current_offset as int, current_offset + num_octets);
        let mut len: usize = 0;
        let mut i: usize = 0;
        while i < num_octets
            invariant
                i <= num_octets,
                current_offset + num_octets <= data.len(),
                data@.len() == data.len(),
                octets == data@.subrange(current_offset as int, current_offset + num_octets),
                len == length_octets_value(octets.subrange(0, i as int)),
            decreases num_octets - i,
        {
            assert(octets.subrange(0, i + 1).drop_last() =~= octets.subrange(0, i as int));
            len = (len << 8) | (data[current_offset + i] as usize);
            i += 1;
        }
        assert(octets.subrange(0, num_octets as int) =~= octets);
        current_offset += num_octets;
        len
    } else {
        // Short form
        first_length_byte as usize
    };

    Ok((tag, length, current_offset))
}


/// Whether a walk over nested indefinite-length elements found the matching
/// end-of-contents marker, and where the walk ended.
pub enum EndOfContents {
    /// The offset just after the marker that closes the outermost element.
    Found(int),
    /// The data ran out before the marker.
    Missing,
    /// An element header could not be read; the message says why.
    Failed(Seq<char>),
    /// A definite length points past the end of the address space.
    Overflows,
}

/// The walk that looks for the end-of-contents marker closing `depth` open
/// indefinite-length elements, starting at `offset`.
pub open spec fn end_of_contents_walk(data: Seq<u8>, offset: int, depth: nat) -> EndOfContents
    decreases data.len() - offset,
{
    if offset < 0 || offset >= data.len() || depth == 0 {
        EndOfContents::Missing
    } else {
        match tlv_header(data, offset) {
            Err(m) => EndOfContents::Failed(m),
            Ok((tag, len, next)) => {
                if tag == 0 && len == 0 {
                    if depth == 1 {
                        EndOfContents::Found(next)
                    } else {
                        end_of_contents_walk(data, next, (depth - 1) as nat)
                    }
                } else if len == indefinite() {
                    end_of_contents_walk(data, next, depth + 1)
                } else if next + len > usize::MAX {
                    EndOfContents::Overflows
                } else if next + len >= data.len() {
                    EndOfContents::Missing
                } else {
                    end_of_contents_walk(data, next + len, depth)
                }
            },
        }
    }
}

/// A walk that finds a marker ends at least one header further on, inside the data.
pub proof fn lemma_end_of_contents_bounds(data: Seq<u8>, offset: int, depth: nat)
    ensures
        end_of_contents_walk(data, offset, depth) matches EndOfContents::Found(e) ==> offset + 2 <= e
            <= data.len(),
    decreases data.len() - offset,
{
    if !(offset < 0 || offset >= data.len() || depth == 0) {
        match tlv_header(data, offset) {
            Err(m) => {},
            Ok((tag, len, next)) => {
                if tag == 0 && len == 0 {
                    if depth != 1 {
                        lemma_end_of_contents_bounds(data, next, (depth - 1) as nat);
                    }
                } else if len == indefinite() {
                    lemma_end_of_contents_bounds(data, next, depth + 1);
                } else if next + len <= usize::MAX && next + len < data.len() {
                    lemma_end_of_contents_bounds(data, next + len, depth);
                }
            },
        }
    }
}

/// The exec result of `find_end_of_contents` seen through the walk.
pub open spec fn end_of_contents_result(data: Seq<u8>, start: int) -> Result<int, Seq<char>> {
    match end_of_contents_walk(data, start, 1) {
        EndOfContents::Found(e) => Ok(e),
        EndOfContents::Failed(m) => Err(m),
        _ => Err("Missing end-of-contents marker"@),
    }
}

/// Finds the end-of-contents marker for indefinite length encoding
///
/// Returns the offset after the end-of-contents marker
pub fn find_end_of_contents(data: &[u8], start_offset: usize) -> (res: Result<usize, ASN1Error>)
    requires
        end_of_contents_walk(data@, start_offset as int, 1) != EndOfContents::Overflows,
    ensures
        match res {
            Ok(e) => end_of_contents_result(data@, start_offset as int) == Ok::<int, Seq<char>>(e as int),
            Err(err) => end_of_contents_result(data@, start_offset as int) == Err::<int, Seq<char>>(err@),
        },
        res matches Ok(e) ==> start_offset + 2 <= e <= data@.len(),
{
    proof {
        lemma_end_of_contents_bounds(data@, start_offset as int, 1);
    }
    let mut offset = start_offset;
    let mut depth: usize = 1;

    while offset < data.len() && depth > 0
        invariant
            data@.len() == data.len(),
            start_offset <= offset,
            end_of_contents_walk(data@, start_offset as int, 1) != EndOfContents::Overflows,
            1 <= depth <= offset - start_offset + 1,
            end_of_contents_walk(data@, offset as int, depth as nat) == end_of_contents_walk(
                data@,
                start_offset as int,
                1,
            ),
        ensures
            end_of_contents_walk(data@, start_offset as int, 1) == EndOfContents::Missing,
        decreases data.len() - offset,
    {
        let (tag, length, content_offset) = read_tlv(data, offset)?;

        if tag == 0x00 && length == 0 {
            // End-of-contents marker
            depth -= 1;
            if depth == 0 {
                return Ok(content_offset);
            }
            offset = content_offset;
        } else if length == usize::MAX {
            // Another indefinite length item
            depth += 1;
            offset = content_offset;
        } else {
            // Definite length item
            if length >= data.len() - content_offset {
                assert(end_of_contents_walk(data@, offset as int, depth as nat) == EndOfContents::Missing);
                break;
            }
            offset = content_offset + length;
        }
    }

    Err(decode_error("Missing end-of-contents marker"))
}


/// Where the element at `offset` ends: after its content for a definite length,
/// after the matching end-of-contents marker for an indefinite one.
pub open spec fn skip_result(data: Seq<u8>, offset: int) -> Result<int, Seq<char>> {
    match tlv_header(data, offset) {
        Err(m) => Err(m),
        Ok((_, len, next)) => if len == indefinite() {
            end_of_contents_result(data, next)
        } else {
            Ok(next + len)
        },
    }
}

/// The inputs on which skipping the element at `offset` stays within `usize`.
pub open spec fn skip_fits(data: Seq<u8>, offset: int) -> bool {
    tlv_header(data, offset) matches Ok((_, len, next)) ==> if len == indefinite() {
        end_of_contents_walk(data, next, 1) != EndOfContents::Overflows
    } else {
        next + len <= usize::MAX
    }
}

/// Skips a TLV element and returns the offset after it
pub fn skip(data: &[u8], offset: usize) -> (res: Result<usize, ASN1Error>)
    requires
        skip_fits(data@, offset as int),
    ensures
        match res {
            Ok(n) => skip_result(data@, offset as int) == Ok::<int, Seq<char>>(n as int),
            Err(e) => skip_result(data@, offset as int) == Err::<int, Seq<char>>(e@),
        },
{
    let (_, length, content_offset) = read_tlv(data, offset)?;
    if length == usize::MAX {
        // Indefinite length - find end-of-contents
        find_end_of_contents(data, content_offset)
    } else {
        Ok(content_offset + length)
    }
}

/// The first offset at or after `a` that starts a `00 00` pair, or where the scan runs out.
pub open spec fn zero_pair_scan(data: Seq<u8>, a: int) -> int
    decreases data.len() - a,
{
    if a + 1 < data.len() {
        if data[a] == 0 && data[a + 1] == 0 {
            a
        } else {
            zero_pair_scan(data, a + 1)
        }
    } else {
        a
    }
}

proof fn lemma_zero_pair_scan_bounds(data: Seq<u8>, a: int)
    ensures
        a <= zero_pair_scan(data, a),
        a <= data.len() ==> zero_pair_scan(data, a) <= data.len(),
    decreases data.len() - a,
{
    if a + 1 < data.len() && !(data[a] == 0 && data[a + 1] == 0) {
        lemma_zero_pair_scan_bounds(data, a + 1);
    }
}

/// The content of the element whose content starts at `content_offset`:
/// `length` bytes, or for the indefinite form everything up to the closing marker.
pub open spec fn content_result(data: Seq<u8>, content_offset: int, length: usize) -> Result<Seq<u8>, Seq<char>> {
    if length == indefinite() {
        match end_of_contents_walk(data, content_offset, 1) {
            EndOfContents::Found(e) => if e >= 2 && data[e - 2] == 0 && data[e - 1] == 0 {
                Ok(data.subrange(content_offset, e - 2))
            } else {
                Ok(data.subrange(content_offset, zero_pair_scan(data, content_offset)))
            },
            EndOfContents::Failed(m) => Err(m),
            _ => Err("Missing end-of-contents marker"@),
        }
    } else if content_offset + length > data.len() {
        Err("Data too short for specified length"@)
    } else {
        Ok(data.subrange(content_offset, content_offset + length))
    }
}

/// Gets the content of an element, handling indefinite length
pub fn get_content<'a>(data: &'a [u8], content_offset: usize, length: usize) -> (res: Result<&'a [u8], ASN1Error>)
    requires
        length == usize::MAX ==> end_of_contents_walk(data@, content_offset as int, 1)
            != EndOfContents::Overflows,
        length != usize::MAX ==> content_offset + length <= usize::MAX,
    ensures
        match res {
            Ok(c) => content_result(data@, content_offset as int, length) == Ok::<Seq<u8>, Seq<char>>(c@),
            Err(e) => content_result(data@, content_offset as int, length) == Err::<Seq<u8>, Seq<char>>(e@),
        },
{
    if length == usize::MAX {
        // Indefinite length - find end-of-contents
        let end_offset = find_end_of_contents(data, content_offset)?;
        // The end_offset points to after the end-of-contents marker;
        // the content stops before its two zero octets.
        if end_offset >= 2 && data[end_offset - 2] == 0x00 && data[end_offset - 1] == 0x00 {
            Ok(slice_subrange(data, content_offset, end_offset - 2))
        } else {
            // Scan for the first pair of zero octets instead
            let mut actual_end = content_offset;
            while actual_end + 1 < data.len()
                invariant
                    data@.len() == data.len(),
                    content_offset <= actual_end < data.len(),
                    zero_pair_scan(data@, actual_end as int) == zero_pair_scan(data@, content_offset as int),
                ensures
                    zero_pair_scan(data@, content_offset as int) == actual_end,
                decreases data.len() - actual_end,
            {
                if data[actual_end] == 0x00 && data[actual_end + 1] == 0x00 {
                    break;
                }
                actual_end += 1;
            }
            proof {
                lemma_zero_pair_scan_bounds(data@, content_offset as int);
            }
            Ok(slice_subrange(data, content_offset, actual_end))
        }
    } else {
        if content_offset + length > data.len() {
            return Err(decode_error("Data too short for specified length"));
        }
        Ok(slice_subrange(data, content_offset, content_offset + length))
    }
}


impl ASN1Error {
    /// The rendered error: `ASN1DecodeError: [<message>]`.
    pub fn to_string(&self) -> (s: String)
        ensures
            s@ == "ASN1DecodeError: ["@ + self@ + "]"@,
    {
        match self {
            ASN1Error::ASN1DecodeError(m) => {
                let mut s = String::from_str("ASN1DecodeError: [");
                s.append(m.as_str());
                s.append("]");
                s
            },
        }
    }
}

/// A lower-case hexadecimal digit.
pub open spec fn hex_digit(d: u8) -> char {
    if d < 10 {
        (('0' as u8) + d) as char
    } else {
        (('a' as u8) + d - 10) as char
    }
}

/// A byte as two lower-case hexadecimal digits.
pub open spec fn hex_byte(b: u8) -> Seq<char> {
    seq![hex_digit(b / 16), hex_digit(b % 16)]
}

fn hex_digit_str(d: u8) -> (s: &'static str)
    requires
        d < 16,
    ensures
        s@ == seq![hex_digit(d)],
{
    match d {
        0 => {
            proof {
                reveal_strlit("0");
            }
            "0"
        },
        1 => {
            proof {
                reveal_strlit("1");
            }
            "1"
        },
        2 => {
            proof {
                reveal_strlit("2");
            }
            "2"
        },
        3 => {
            proof {
                reveal_strlit("3");
            }
            "3"
        },
        4 => {
            proof {
                reveal_strlit("4");
            }
            "4"
        },
        5 => {
            proof {
                reveal_strlit("5");
            }
            "5"
        },
        6 => {
            proof {
                reveal_strlit("6");
            }
            "6"
        },
        7 => {
            proof {
                reveal_strlit("7");
            }
            "7"
        },
        8 => {
            proof {
                reveal_strlit("8");
            }
            "8"
        },
        9 => {
            proof {
                reveal_strlit("9");
            }
            "9"
        },
        10 => {
            proof {
                reveal_strlit("a");
            }
            "a"
        },
        11 => {
            proof {
                reveal_strlit("b");
            }
            "b"
        },
        12 => {
            proof {
                reveal_strlit("c");
            }
            "c"
        },
        13 => {
            proof {
                reveal_strlit("d");
            }
            "d"
        },
        14 => {
            proof {
                reveal_strlit("e");
            }
            "e"
        },
        _ => {
            proof {
                reveal_strlit("f");
            }
            "f"
        },
    }
}

fn tag_mismatch(prefix: &str, tag: u8) -> (e: ASN1Error)
    ensures
        e@ == prefix@ + hex_byte(tag),
{
    let mut m = String::from_str(prefix);
    m.append(hex_digit_str(tag / 16));
    m.append(hex_digit_str(tag % 16));
    ASN1Error::ASN1DecodeError(m)
}

/// Reading an element that must carry one of the tags `accepts` admits:
/// its content offset and length, or the message of the failure.
pub open spec fn typed_header(data: Seq<u8>, offset: int, accepts: spec_fn(u8) -> bool, expected: Seq<char>) -> Result<(int, usize), Seq<char>> {
    match tlv_header(data, offset) {
        Err(m) => Err(m),
        Ok((tag, len, next)) => if accepts(tag) {
            Ok((next, len))
        } else {
            Err(expected + hex_byte(tag))
        },
    }
}

/// The view of an exec result of the typed readers.
pub open spec fn typed_result_view(r: Result<(usize, usize), ASN1Error>) -> Result<(int, usize), Seq<char>> {
    match r {
        Ok((o, l)) => Ok((o as int, l)),
        Err(e) => Err(e@),
    }
}

/// The tag test of the single-tag readers.
pub open spec fn tag_is(expected: u8) -> spec_fn(u8) -> bool {
    |t: u8| t == expected
}

fn read_tagged(data: &[u8], offset: usize, expected: u8, prefix: &str) -> (res: Result<(usize, usize), ASN1Error>)
    ensures
        typed_result_view(res) == typed_header(data@, offset as int, tag_is(expected), prefix@),
{
    let (tag, length, content_offset) = read_tlv(data, offset)?;
    if tag != expected {
        return Err(tag_mismatch(prefix, tag));
    }
    Ok((content_offset, length))
}

/// Reads a SEQUENCE and returns its content offset and length
pub fn read_sequence(data: &[u8], offset: usize) -> (res: Result<(usize, usize), ASN1Error>)
    ensures
        typed_result_view(res) == typed_header(
            data@,
            offset as int,
            tag_is(TAG_SEQUENCE),
            "Expected SEQUENCE (0x30), got 0x"@,
        ),
{
    read_tagged(data, offset, TAG_SEQUENCE, "Expected SEQUENCE (0x30), got 0x")
}

/// Reads a SET and returns its content offset and length
pub fn read_set(data: &[u8], offset: usize) -> (res: Result<(usize, usize), ASN1Error>)
    ensures
        typed_result_view(res) == typed_header(
            data@,
            offset as int,
            tag_is(TAG_SET),
            "Expected SET (0x31), got 0x"@,
        ),
{
    read_tagged(data, offset, TAG_SET, "Expected SET (0x31), got 0x")
}

/// Reads an OCTET STRING and returns its content offset and length
pub fn read_octet_string(data: &[u8], offset: usize) -> (res: Result<(usize, usize), ASN1Error>)
    ensures
        typed_result_view(res) == typed_header(
            data@,
            offset as int,
            tag_is(TAG_OCTET_STRING),
            "Expected OCTET STRING (0x04), got 0x"@,
        ),
{
    read_tagged(data, offset, TAG_OCTET_STRING, "Expected OCTET STRING (0x04), got 0x")
}

/// The tags a BIT STRING may carry: primitive, or constructed in the indefinite form.
pub open spec fn bit_string_tags() -> spec_fn(u8) -> bool {
    |t: u8| t == TAG_BIT_STRING || t == TAG_CONTEXT_SPECIFIC_CONSTRUCTED_4
}

/// Reads a BIT STRING and returns its content offset and length
pub fn read_bit_string(data: &[u8], offset: usize) -> (res: Result<(usize, usize), ASN1Error>)
    ensures
        typed_result_view(res) == typed_header(
            data@,
            offset as int,
            bit_string_tags(),
            "Expected BIT STRING (0x03 or 0x24), got 0x"@,
        ),
{
    let (tag, length, content_offset) = read_tlv(data, offset)?;
    if tag != TAG_BIT_STRING && tag != TAG_CONTEXT_SPECIFIC_CONSTRUCTED_4 {
        return Err(tag_mismatch("Expected BIT STRING (0x03 or 0x24), got 0x", tag));
    }
    Ok((content_offset, length))
}

/// Reads an OID and returns its content offset and length
pub fn read_oid(data: &[u8], offset: usize) -> (res: Result<(usize, usize), ASN1Error>)
    ensures
        typed_result_view(res) == typed_header(
            data@,
            offset as int,
            tag_is(TAG_OID),
            "Expected OID (0x06), got 0x"@,
        ),
{
    read_tagged(data, offset, TAG_OID, "Expected OID (0x06), got 0x")
}

/// Reads a context-specific [0] and returns its content offset and length
pub fn read_context_specific_0(data: &[u8], offset: usize) -> (res: Result<(usize, usize), ASN1Error>)
    ensures
        typed_result_view(res) == typed_header(
            data@,
            offset as int,
            tag_is(TAG_CONTEXT_SPECIFIC_0),
            "Expected context-specific [0] (0xA0), got 0x"@,
        ),
{
    read_tagged(data, offset, TAG_CONTEXT_SPECIFIC_0, "Expected context-specific [0] (0xA0), got 0x")
}


/// `256` raised to `n`.
pub open spec fn pow256(n: nat) -> nat
    decreases n,
{
    if n == 0 {
        1
    } else {
        256 * pow256((n - 1) as nat)
    }
}

/// A big-endian number of `n` octets is below `256^n`.
pub proof fn lemma_big_endian_bound(bytes: Seq<u8>)
    ensures
        big_endian_value(bytes) < pow256(bytes.len()),
    decreases bytes.len(),
{
    if bytes.len() > 0 {
        let p = bytes.drop_last();
        lemma_big_endian_bound(p);
        let v = big_endian_value(p);
        let q = pow256(p.len());
        assert(v * 256 + bytes.last() < q * 256) by (nonlinear_arith)
            requires
                v < q,
                bytes.last() < 256,
        ;
    }
}

/// The value of an INTEGER element: its content octets as an unsigned big-endian number
/// (no content reads as zero), or the message of the failure.
pub open spec fn integer_result(data: Seq<u8>, offset: int) -> Result<nat, Seq<char>> {
    match tlv_header(data, offset) {
        Err(m) => Err(m),
        Ok((tag, len, next)) => if tag != TAG_INTEGER {
            Err("Expected INTEGER"@)
        } else if len == 0 {
            Ok(0)
        } else if len > 8 {
            Err("Integer too large for u64"@)
        } else {
            Ok(big_endian_value(data.subrange(next, next + len)))
        },
    }
}

/// The inputs on which the content octets that `read_integer` reads lie inside the data.
pub open spec fn integer_content_present(data: Seq<u8>, offset: int) -> bool {
    tlv_header(data, offset) matches Ok((tag, len, next)) ==> (tag == TAG_INTEGER && 0 < len <= 8
        ==> next + len <= data.len())
}

/// Reads an ASN.1 INTEGER value as u64
pub fn read_integer(data: &[u8], offset: usize) -> (res: Result<u64, ASN1Error>)
    requires
        integer_content_present(data@, offset as int),
    ensures
        match res {
            Ok(v) => integer_result(data@, offset as int) == Ok::<nat, Seq<char>>(v as nat),
            Err(e) => integer_result(data@, offset as int) == Err::<nat, Seq<char>>(e@),
        },
{
    let (tag, length, content_offset) = read_tlv(data, offset)?;
    if tag != TAG_INTEGER {
        return Err(decode_error("Expected INTEGER"));
    }

    if length == 0 {
        return Ok(0);
    }

    if length > 8 {
        return Err(decode_error("Integer too large for u64"));
    }

    let ghost content = data@.subrange(content_offset as int, content_offset + length);
    let mut result: u64 = 0;
    let mut i: usize = 0;
    while i < length
        invariant
            i <= length <= 8,
            content_offset + length <= data@.len(),
            data@.len() == data.len(),
            content == data@.subrange(content_offset as int, content_offset + length),
            result as nat == big_endian_value(content.subrange(0, i as int)),
        decreases length - i,
    {
        let ghost prefix = content.subrange(0, i as int);
        proof {
            lemma_big_endian_bound(prefix);
            reveal_with_fuel(pow256, 8);
            assert(pow256(7) == 72057594037927936);
            assert(pow256(i as nat) <= pow256(7)) by {
                lemma_pow256_monotone(i as nat, 7);
            }
            assert(content.subrange(0, i + 1).drop_last() =~= prefix);
        }
        let byte = data[content_offset + i];
        assert((result << 8u64) | (byte as u64) == (result << 8u64) + (byte as u64)) by (bit_vector);
        proof {
            vstd::arithmetic::power2::lemma2_to64();
            vstd::bits::lemma_u64_shl_is_mul(result, 8);
        }
        result = (result << 8) | (byte as u64);
        i += 1;
    }
    assert(content.subrange(0, length as int) =~= content);

    Ok(result)
}

/// Powers of 256 grow with the exponent.
pub proof fn lemma_pow256_monotone(a: nat, b: nat)
    requires
        a <= b,
    ensures
        pow256(a) <= pow256(b),
    decreases b - a,
{
    if a < b {
        lemma_pow256_monotone(a, (b - 1) as nat);
    }
}

/// The text `Utf8Error` renders for an invalid byte sequence.
pub uninterp spec fn utf8_error_text(bytes: Seq<u8>) -> Seq<char>;

/// `std::str::from_utf8` followed by an owned copy. Claims what std documents:
/// the bytes decode exactly when they are valid UTF-8, and then to the characters
/// they encode; a failure carries the rendered `Utf8Error`, a function of the bytes.
#[verifier::external_body]
pub(crate) fn utf8_to_string(bytes: &[u8]) -> (res: Result<String, String>)
    ensures
        res is Ok <==> valid_utf8(bytes@),
        res matches Ok(s) ==> s@ == decode_utf8(bytes@),
        res matches Err(m) ==> m@ == utf8_error_text(bytes@),
{
    match std::str::from_utf8(bytes) {
        Ok(s) => Ok(s.to_string()),
        Err(e) => Err(e.to_string()),
    }
}

/// The text of a UTF8String element, or the message of the failure.
pub open spec fn utf8_string_result(data: Seq<u8>, offset: int) -> Result<Seq<char>, Seq<char>> {
    match tlv_header(data, offset) {
        Err(m) => Err(m),
        Ok((tag, len, next)) => if tag != TAG_UTF8_STRING {
            Err("Expected UTF8String (0x0C), got 0x"@ + hex_byte(tag))
        } else {
            let bytes = data.subrange(next, next + len);
            if valid_utf8(bytes) {
                Ok(decode_utf8(bytes))
            } else {
                Err("Invalid UTF-8: "@ + utf8_error_text(bytes))
            }
        },
    }
}

/// The inputs on which the content octets of a UTF8String lie inside the data.
pub open spec fn utf8_content_present(data: Seq<u8>, offset: int) -> bool {
    tlv_header(data, offset) matches Ok((tag, len, next)) ==> (tag == TAG_UTF8_STRING ==> next + len
        <= data.len())
}

/// Reads a UTF8String and returns the string
pub fn read_utf8_string(data: &[u8], offset: usize) -> (res: Result<String, ASN1Error>)
    requires
        utf8_content_present(data@, offset as int),
    ensures
        match res {
            Ok(s) => utf8_string_result(data@, offset as int) == Ok::<Seq<char>, Seq<char>>(s@),
            Err(e) => utf8_string_result(data@, offset as int) == Err::<Seq<char>, Seq<char>>(e@),
        },
{
    let (tag, length, content_offset) = read_tlv(data, offset)?;
    if tag != TAG_UTF8_STRING {
        return Err(tag_mismatch("Expected UTF8String (0x0C), got 0x", tag));
    }

    assert(tlv_header(data@, offset as int) == Ok::<(u8, usize, int), Seq<char>>(
        (tag, length, content_offset as int),
    ));
    assert(content_offset + length <= data@.len());
    assert(data@.len() == data.len());
    let utf8_bytes = slice_subrange(data, content_offset, content_offset + length);
    match utf8_to_string(utf8_bytes) {
        Ok(s) => Ok(s),
        Err(e) => {
            let mut m = String::from_str("Invalid UTF-8: ");
            m.append(e.as_str());
            Err(ASN1Error::ASN1DecodeError(m))
        },
    }
}

} // verus!
