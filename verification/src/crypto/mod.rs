//! Cryptographic helpers: compact JWS handling, OIDs, ECDSA P-256 keys and the
//! DER form of ECDSA signatures.
pub mod jws;
pub mod oid;
pub mod pem;
pub mod rust_crypto;

use vstd::prelude::*;
use crate::asn1::asn1_basics::tlv_header;

verus! {

/// Errors raised by cryptographic primitives.
#[derive(Debug, PartialEq)]
pub enum CryptoError {
    KeyError(String),
    SigningError(String),
    VerificationError(String),
}

impl CryptoError {
    /// The rendered error.
    pub fn to_string(&self) -> (s: String)
        ensures
            s@ == match self {
                CryptoError::KeyError(m) => "Key error: "@ + m@,
                CryptoError::SigningError(m) => "Signing error: "@ + m@,
                CryptoError::VerificationError(m) => "Verification error: "@ + m@,
            },
    {
        let (mut s, m) = match self {
            CryptoError::KeyError(m) => (String::from_str("Key error: "), m),
            CryptoError::SigningError(m) => (String::from_str("Signing error: "), m),
            CryptoError::VerificationError(m) => (String::from_str("Verification error: "), m),
        };
        s.append(m.as_str());
        s
    }
}

/// ECDSA P-256 signature: `(raw, der)`, the fixed-width `r‖s` form and its DER form.
pub type P256Signature = ([u8; 64], Vec<u8>);

/// A P-256 private key that signs messages (hashing them with SHA-256 itself).
pub trait P256PrivateKey {
    /// Signs `message`, returning the raw and the DER form of the signature.
    fn signature(&self, message: &[u8]) -> Result<P256Signature, CryptoError>;
}

/// A P-256 public key that checks signatures.
pub trait P256PublicKey {
    /// `Ok(())` when the fixed-width signature is valid over `message`.
    fn is_valid_signature(&self, signature: &[u8; 64], message: &[u8]) -> Result<(), CryptoError>;
}

/// ECDSA P-256 signing and verification: how keys are loaded.
pub trait P256SigningSuite {
    type PrivateKey: P256PrivateKey;
    type PublicKey: P256PublicKey;

    /// `pem` is a PKCS#8 PEM private key, as Apple issues them (`.p8`).
    fn private_key(&self, pem: &str) -> Result<Self::PrivateKey, CryptoError>;

    /// `spki_der` is a DER-encoded SubjectPublicKeyInfo.
    fn public_key(&self, spki_der: &[u8]) -> Result<Self::PublicKey, CryptoError>;
}

/// `b` without the leading zero bytes that DER forbids: a zero is dropped while the
/// byte after it leaves the value non-negative.
pub open spec fn drop_redundant_zeros(b: Seq<u8>) -> Seq<u8>
    decreases b.len(),
{
    if b.len() >= 2 && b[0] == 0 && b[1] < 0x80 {
        drop_redundant_zeros(b.drop_first())
    } else {
        b
    }
}

/// The content octets of the DER INTEGER whose value is the unsigned big-endian `b`.
pub open spec fn der_unsigned_integer_content(b: Seq<u8>) -> Seq<u8> {
    if b.len() > 0 && b[0] >= 0x80 {
        seq![0u8] + b
    } else {
        drop_redundant_zeros(b)
    }
}

/// The DER INTEGER (tag, short length, content) for the unsigned big-endian `b`.
pub open spec fn der_unsigned_integer(b: Seq<u8>) -> Seq<u8> {
    let c = der_unsigned_integer_content(b);
    seq![0x02u8, c.len() as u8] + c
}

/// `SEQUENCE { INTEGER r, INTEGER s }` for the fixed-width `r‖s` signature `rs`.
pub open spec fn ecdsa_signature_der(rs: Seq<u8>) -> Seq<u8> {
    let body = der_unsigned_integer(rs.subrange(0, 32)) + der_unsigned_integer(rs.subrange(32, 64));
    seq![0x30u8, body.len() as u8] + body
}

/// The unsigned big-endian value of `b`.
pub open spec fn magnitude(b: Seq<u8>) -> nat
    decreases b.len(),
{
    if b.len() == 0 {
        0
    } else {
        magnitude(b.drop_last()) * 256 + b.last() as nat
    }
}

proof fn lemma_drop_redundant_zeros_shape(b: Seq<u8>)
    requires
        b.len() >= 1,
    ensures
        1 <= drop_redundant_zeros(b).len() <= b.len(),
        drop_redundant_zeros(b) == b.subrange(b.len() - drop_redundant_zeros(b).len(), b.len() as int),
        !(drop_redundant_zeros(b).len() >= 2 && drop_redundant_zeros(b)[0] == 0
            && drop_redundant_zeros(b)[1] < 0x80),
    decreases b.len(),
{
    if b.len() >= 2 && b[0] == 0 && b[1] < 0x80 {
        lemma_drop_redundant_zeros_shape(b.drop_first());
        let d = drop_redundant_zeros(b.drop_first());
        assert(b.drop_first().subrange(b.len() - 1 - d.len(), b.len() - 1) =~= b.subrange(
            b.len() - d.len(),
            b.len() as int,
        ));
    } else {
        assert(b.subrange(0, b.len() as int) =~= b);
    }
}

/// A leading zero byte does not change the value.
proof fn lemma_magnitude_leading_zero(b: Seq<u8>)
    requires
        b.len() >= 1,
        b[0] == 0,
    ensures
        magnitude(b) == magnitude(b.drop_first()),
    decreases b.len(),
{
    if b.len() == 1 {
        assert(b.drop_last().len() == 0);
        assert(b.drop_first().len() == 0);
        assert(b.last() == b[0]);
        assert(magnitude(b) == magnitude(b.drop_last()) * 256 + b.last() as nat);
    } else {
        lemma_magnitude_leading_zero(b.drop_last());
        assert(b.drop_last().drop_first() =~= b.drop_first().drop_last());
        assert(b.drop_first().last() == b.last());
    }
}

proof fn lemma_drop_redundant_zeros_value(b: Seq<u8>)
    ensures
        magnitude(drop_redundant_zeros(b)) == magnitude(b),
    decreases b.len(),
{
    if b.len() >= 2 && b[0] == 0 && b[1] < 0x80 {
        lemma_magnitude_leading_zero(b);
        lemma_drop_redundant_zeros_value(b.drop_first());
    }
}

/// The DER INTEGER content of `b` is minimal, non-negative and holds the value of `b`.
pub proof fn lemma_der_unsigned_integer_content(b: Seq<u8>)
    requires
        b.len() >= 1,
    ensures
        1 <= der_unsigned_integer_content(b).len() <= b.len() + 1,
        der_unsigned_integer_content(b)[0] < 0x80,
        !(der_unsigned_integer_content(b).len() >= 2 && der_unsigned_integer_content(b)[0] == 0
            && der_unsigned_integer_content(b)[1] < 0x80),
        magnitude(der_unsigned_integer_content(b)) == magnitude(b),
{
    let c = der_unsigned_integer_content(b);
    if b[0] >= 0x80 {
        assert(c.drop_first() =~= b);
        lemma_magnitude_leading_zero(c);
    } else {
        lemma_drop_redundant_zeros_shape(b);
        lemma_drop_redundant_zeros_value(b);
        let d = drop_redundant_zeros(b);
        if d[0] >= 0x80 {
            // d is a suffix of b; a first byte of 0x80 or more can only be b's own first byte
            assert(d == b.subrange(b.len() - d.len(), b.len() as int));
            if d.len() < b.len() {
                lemma_suffix_after_zero(b, d.len());
            }
        }
    }
}

/// A strict suffix that `drop_redundant_zeros` stops at follows a zero whose successor
/// is below 0x80.
proof fn lemma_suffix_after_zero(b: Seq<u8>, n: nat)
    requires
        b.len() >= 1,
        b[0] < 0x80,
        1 <= n < b.len(),
        drop_redundant_zeros(b).len() == n,
    ensures
        drop_redundant_zeros(b)[0] < 0x80,
    decreases b.len(),
{
    if b.len() >= 2 && b[0] == 0 && b[1] < 0x80 {
        if n < b.len() - 1 {
            lemma_suffix_after_zero(b.drop_first(), n);
        } else {
            lemma_drop_redundant_zeros_shape(b.drop_first());
            assert(b.drop_first().subrange(0, b.len() - 1) =~= b.drop_first());
        }
    }
}

/// The DER INTEGER content octets for `b[lo..hi]`.
fn unsigned_integer_content(b: &[u8; 64], lo: usize, hi: usize) -> (c: Vec<u8>)
    requires
        lo < hi <= 64,
    ensures
        c@ == der_unsigned_integer_content(b@.subrange(lo as int, hi as int)),
{
    let ghost part = b@.subrange(lo as int, hi as int);
    let mut c: Vec<u8> = Vec::new();
    let mut idx = lo;
    if b[lo] >= 0x80 {
        c.push(0u8);
    } else {
        while idx + 1 < hi && b[idx] == 0 && b[idx + 1] < 0x80
            invariant
                lo <= idx < hi <= 64,
                b@.len() == 64,
                part == b@.subrange(lo as int, hi as int),
                part[0] < 0x80,
                drop_redundant_zeros(b@.subrange(idx as int, hi as int)) == drop_redundant_zeros(part),
            decreases hi - idx,
        {
            assert(b@.subrange(idx as int, hi as int).drop_first() =~= b@.subrange(idx + 1, hi as int));
            idx += 1;
        }
        assert(drop_redundant_zeros(b@.subrange(idx as int, hi as int)) == b@.subrange(idx as int, hi as int));
    }
    let ghost start = c@;
    let mut j = idx;
    while j < hi
        invariant
            idx <= j <= hi <= 64,
            b@.len() == 64,
            c@ == start + b@.subrange(idx as int, j as int),
        decreases hi - j,
    {
        c.push(b[j]);
        assert(b@.subrange(idx as int, j + 1) =~= b@.subrange(idx as int, j as int).push(b@[j as int]));
        j += 1;
    }
    proof {
        if part[0] >= 0x80 {
            assert(idx == lo);
            assert(c@ =~= seq![0u8] + part);
        } else {
            assert(c@ =~= b@.subrange(idx as int, hi as int));
        }
    }
    c
}

/// Converts a fixed-width `r‖s` ECDSA P-256 signature to `SEQUENCE { INTEGER r, INTEGER s }`.
pub fn ecdsa_raw_to_der(rs: &[u8; 64]) -> (res: Result<Vec<u8>, CryptoError>)
    ensures
        res matches Ok(der) && der@ == ecdsa_signature_der(rs@),
{
    let r = unsigned_integer_content(rs, 0, 32);
    let s = unsigned_integer_content(rs, 32, 64);
    proof {
        lemma_der_unsigned_integer_content(rs@.subrange(0, 32));
        lemma_der_unsigned_integer_content(rs@.subrange(32, 64));
    }
    let r_len = r.len();
    let s_len = s.len();
    let body_len = 4 + r_len + s_len;
    let mut der: Vec<u8> = Vec::new();
    der.push(0x30u8);
    der.push(body_len as u8);
    der.push(0x02u8);
    der.push(r_len as u8);
    let mut i: usize = 0;
    while i < r_len
        invariant
            i <= r_len == r@.len(),
            der@ == seq![0x30u8, body_len as u8, 0x02u8, r_len as u8] + r@.subrange(0, i as int),
        decreases r_len - i,
    {
        der.push(r[i]);
        assert(r@.subrange(0, i + 1) =~= r@.subrange(0, i as int).push(r@[i as int]));
        i += 1;
    }
    der.push(0x02u8);
    der.push(s_len as u8);
    let ghost head = der@;
    let mut k: usize = 0;
    while k < s_len
        invariant
            k <= s_len == s@.len(),
            der@ == head + s@.subrange(0, k as int),
        decreases s_len - k,
    {
        der.push(s[k]);
        assert(s@.subrange(0, k + 1) =~= s@.subrange(0, k as int).push(s@[k as int]));
        k += 1;
    }
    proof {
        assert(r@.subrange(0, r_len as int) =~= r@);
        assert(s@.subrange(0, s_len as int) =~= s@);
        let body = der_unsigned_integer(rs@.subrange(0, 32)) + der_unsigned_integer(rs@.subrange(32, 64));
        assert(body.len() == body_len);
        assert(der@ =~= ecdsa_signature_der(rs@));
    }
    Ok(der)
}

/// The DER form of a signature is one SEQUENCE, in short form, of two INTEGERs: each
/// minimal, non-negative, and holding the value of its half of `r‖s`.
pub proof fn lemma_ecdsa_signature_der_holds_r_and_s(rs: Seq<u8>)
    requires
        rs.len() == 64,
    ensures
        ({
            let der = ecdsa_signature_der(rs);
            let r = der_unsigned_integer_content(rs.subrange(0, 32));
            let s = der_unsigned_integer_content(rs.subrange(32, 64));
            &&& der.len() == 6 + r.len() + s.len()
            &&& 8 <= der.len() <= 72
            &&& der[0] == 0x30 && der[1] == der.len() - 2
            &&& der[2] == 0x02 && der[3] == r.len() && der.subrange(4, 4 + r.len() as int) == r
            &&& der[4 + r.len() as int] == 0x02 && der[5 + r.len() as int] == s.len()
            &&& der.subrange(6 + r.len() as int, der.len() as int) == s
            &&& magnitude(r) == magnitude(rs.subrange(0, 32))
            &&& magnitude(s) == magnitude(rs.subrange(32, 64))
            &&& r[0] < 0x80 && s[0] < 0x80
        }),
{
    lemma_der_unsigned_integer_content(rs.subrange(0, 32));
    lemma_der_unsigned_integer_content(rs.subrange(32, 64));
    let der = ecdsa_signature_der(rs);
    let r = der_unsigned_integer_content(rs.subrange(0, 32));
    let s = der_unsigned_integer_content(rs.subrange(32, 64));
    assert(der.subrange(4, 4 + r.len() as int) =~= r);
    assert(der.subrange(6 + r.len() as int, der.len() as int) =~= s);
}

/// The DER form of a signature reads back with the ASN.1 readers: a SEQUENCE spanning
/// the rest of the bytes, then the INTEGERs holding r and s.
pub proof fn lemma_ecdsa_signature_der_reads_back(rs: Seq<u8>)
    requires
        rs.len() == 64,
    ensures
        ({
            let der = ecdsa_signature_der(rs);
            let r = der_unsigned_integer_content(rs.subrange(0, 32));
            let s = der_unsigned_integer_content(rs.subrange(32, 64));
            &&& tlv_header(der, 0) == Ok::<(u8, usize, int), Seq<char>>((0x30u8, (der.len() - 2) as usize, 2))
            &&& tlv_header(der, 2) == Ok::<(u8, usize, int), Seq<char>>((0x02u8, r.len() as usize, 4))
            &&& der.subrange(4, 4 + r.len() as int) == r
            &&& tlv_header(der, 4 + r.len() as int) == Ok::<(u8, usize, int), Seq<char>>(
                (0x02u8, s.len() as usize, 6 + r.len() as int),
            )
            &&& der.subrange(6 + r.len() as int, der.len() as int) == s
        }),
{
    lemma_ecdsa_signature_der_holds_r_and_s(rs);
}

} // verus!
