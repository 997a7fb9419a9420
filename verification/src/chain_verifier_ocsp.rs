//! Online revocation checking (OCSP) of a leaf certificate: finding the responder,
//! building the request and deciding on the answer. Sending the request is left to the
//! caller, which hands back what the exchange gave.
use vstd::prelude::*;
use vstd::utf8::{decode_utf8, valid_utf8};
use crate::asn1::asn1_basics::{
    read_oid, read_sequence, read_tlv, tag_is, tlv_header, typed_header, utf8_to_string, TAG_OID, TAG_SEQUENCE,
};
use crate::chain_verifier::{bytes_equal, ChainVerificationFailureReason, ChainVerifier, ChainVerifierError};

verus! {

/// An extension of a certificate: its dotted OID and its DER value.
pub struct CertificateExtension {
    pub oid: String,
    pub value: Vec<u8>,
}

/// What revocation checking reads of a certificate: the DER encoding of its subject
/// name, the bytes of its serial number and its extensions, where it has any.
pub struct CertificateInfo {
    pub subject_der: Vec<u8>,
    pub serial_number: Vec<u8>,
    pub extensions: Option<Vec<CertificateExtension>>,
}

/// An extension as plain values.
pub open spec fn extension_view(e: CertificateExtension) -> (Seq<char>, Seq<u8>) {
    (e.oid@, e.value@)
}

/// A list of extensions as plain values.
pub open spec fn extension_list_view(v: Seq<CertificateExtension>) -> Seq<(Seq<char>, Seq<u8>)> {
    v.map_values(|e: CertificateExtension| extension_view(e))
}

/// The extensions of a certificate as plain values, where it has any.
pub open spec fn extensions_view(c: CertificateInfo) -> Option<Seq<(Seq<char>, Seq<u8>)>> {
    match c.extensions {
        Some(v) => Some(extension_list_view(v@)),
        None => None,
    }
}

/// Failures of an OCSP check, before they are reported as chain errors.
#[derive(Debug)]
pub enum OcspError {
    /// The request could not be sent.
    NetworkError(String),
    /// The responder answered with a non-success HTTP status.
    HttpError(u16),
    /// The body of the answer could not be read.
    FetchFailed,
    /// The certificate has been revoked.
    CertificateRevoked,
    /// Anything else: a certificate or an answer that does not do.
    ValidationError,
}

/// An OCSP failure as plain values.
pub enum OcspErrorView {
    NetworkError(Seq<char>),
    HttpError(u16),
    FetchFailed,
    CertificateRevoked,
    ValidationError,
}

impl View for OcspError {
    type V = OcspErrorView;

    open spec fn view(&self) -> OcspErrorView {
        match self {
            OcspError::NetworkError(m) => OcspErrorView::NetworkError(m@),
            OcspError::HttpError(s) => OcspErrorView::HttpError(*s),
            OcspError::FetchFailed => OcspErrorView::FetchFailed,
            OcspError::CertificateRevoked => OcspErrorView::CertificateRevoked,
            OcspError::ValidationError => OcspErrorView::ValidationError,
        }
    }
}

/// What sending the request to the responder gave.
pub enum OcspExchange {
    /// No HTTP client could be built; its rendered error.
    ClientFailed(String),
    /// The request could not be sent; its rendered error.
    SendFailed(String),
    /// The responder answered with this HTTP status and, where it could be read, this body.
    Answered(u16, Option<Vec<u8>>),
}

/// The status a responder gives a certificate.
#[derive(Debug, Clone, Copy, PartialEq, Eq, Structural)]
pub enum OcspCertStatus {
    Good,
    Revoked,
    Unknown,
}

/// The OID of the Subject Key Identifier extension.
pub const SUBJECT_KEY_IDENTIFIER_OID: &'static str = "2.5.29.14";

/// The OID of the Authority Information Access extension.
pub const AUTHORITY_INFO_ACCESS_OID: &'static str = "1.3.6.1.5.5.7.1.1";

/// The OID of basic OCSP responses.
pub const BASIC_OCSP_RESPONSE_OID: &'static str = "1.3.6.1.5.5.7.48.1.1";

/// The DER content octets of the OCSP access method OID, 1.3.6.1.5.5.7.48.1.
pub open spec fn ocsp_access_method() -> Seq<u8> {
    seq![0x2Bu8, 0x06u8, 0x01u8, 0x05u8, 0x05u8, 0x07u8, 0x30u8, 0x01u8]
}

/// The context-specific tag of a URI in a GeneralName.
pub const TAG_URI: u8 = 0x86;

/// The text an ASN.1 decoding failure renders as.
pub open spec fn asn1_error_text(m: Seq<char>) -> Seq<char> {
    "ASN1DecodeError: ["@ + m + "]"@
}

/// What scanning the AccessDescriptions of an AIA extension gives.
pub enum AiaScan {
    /// The bytes of the first OCSP responder URI.
    Found(Seq<u8>),
    /// A structure could not be read; the rendered ASN.1 error.
    Malformed(Seq<char>),
    /// No OCSP responder URI.
    NotFound,
    /// The input would make the scan index past the data or overflow an offset.
    OutOfRange,
}

/// A header that reads ends at least two bytes past where it starts.
pub proof fn lemma_typed_header_advances(
    data: Seq<u8>,
    offset: int,
    accepts: spec_fn(u8) -> bool,
    expected: Seq<char>,
)
    ensures
        typed_header(data, offset, accepts, expected) matches Ok((next, _)) ==> next >= offset + 2,
{
}

/// Scans the AccessDescriptions from `offset` up to `end`.
pub open spec fn aia_scan(data: Seq<u8>, offset: int, end: int) -> AiaScan
    decreases if offset < end { end - offset } else { 0 },
{
    if offset >= end {
        AiaScan::NotFound
    } else {
        match typed_header(data, offset, tag_is(TAG_SEQUENCE), "Expected SEQUENCE (0x30), got 0x"@) {
            Err(m) => AiaScan::Malformed(asn1_error_text(m)),
            Ok((desc_offset, desc_length)) => {
                let desc_end = desc_offset + desc_length;
                proof {
                    lemma_typed_header_advances(data, offset, tag_is(TAG_SEQUENCE), "Expected SEQUENCE (0x30), got 0x"@);
                }
                if desc_end > usize::MAX {
                    AiaScan::OutOfRange
                } else {
                    match typed_header(data, desc_offset, tag_is(TAG_OID), "Expected OID (0x06), got 0x"@) {
                        Err(m) => AiaScan::Malformed(asn1_error_text(m)),
                        Ok((oid_offset, oid_length)) => {
                            if oid_offset + oid_length > data.len() {
                                AiaScan::OutOfRange
                            } else if data.subrange(oid_offset, oid_offset + oid_length) == ocsp_access_method() {
                                match tlv_header(data, oid_offset + oid_length) {
                                    Err(m) => AiaScan::Malformed(asn1_error_text(m)),
                                    Ok((tag, uri_length, uri_offset)) => {
                                        if tag != TAG_URI {
                                            aia_scan(data, desc_end, end)
                                        } else if uri_offset + uri_length > data.len() {
                                            AiaScan::OutOfRange
                                        } else {
                                            AiaScan::Found(data.subrange(uri_offset, uri_offset + uri_length))
                                        }
                                    },
                                }
                            } else {
                                aia_scan(data, desc_end, end)
                            }
                        },
                    }
                }
            },
        }
    }
}

/// What reading an AIA extension value gives.
pub open spec fn aia_result(data: Seq<u8>) -> AiaScan {
    match typed_header(data, 0, tag_is(TAG_SEQUENCE), "Expected SEQUENCE (0x30), got 0x"@) {
        Err(m) => AiaScan::Malformed(asn1_error_text(m)),
        Ok((offset, length)) => if offset + length > usize::MAX {
            AiaScan::OutOfRange
        } else {
            aia_scan(data, offset, offset + length)
        },
    }
}

/// `VerificationFailure(InvalidCertificate)`.
pub open spec fn is_invalid_certificate(e: ChainVerifierError) -> bool {
    e == ChainVerifierError::VerificationFailure(ChainVerificationFailureReason::InvalidCertificate)
}

fn invalid_certificate() -> (e: ChainVerifierError)
    ensures
        is_invalid_certificate(e),
{
    ChainVerifierError::VerificationFailure(ChainVerificationFailureReason::InvalidCertificate)
}

/// Whether the bytes `a[lo..hi]` are the OCSP access method OID.
fn is_ocsp_access_method(a: &[u8], lo: usize, hi: usize) -> (r: bool)
    requires
        lo <= hi <= a@.len(),
    ensures
        r == (a@.subrange(lo as int, hi as int) == ocsp_access_method()),
{
    let expected: [u8; 8] = [0x2B, 0x06, 0x01, 0x05, 0x05, 0x07, 0x30, 0x01];
    assert(expected@ =~= ocsp_access_method());
    if hi - lo != 8 {
        return false;
    }
    let mut i: usize = 0;
    while i < 8
        invariant
            lo <= hi <= a@.len(),
            hi - lo == 8,
            expected@ == ocsp_access_method(),
            i <= 8,
            forall|k: int| 0 <= k < i ==> a@[lo + k] == expected@[k],
        decreases 8 - i,
    {
        if a[lo + i] != expected[i] {
            assert(a@.subrange(lo as int, hi as int)[i as int] != ocsp_access_method()[i as int]);
            return false;
        }
        i += 1;
    }
    assert(a@.subrange(lo as int, hi as int) =~= ocsp_access_method());
    true
}

/// What looking for the OCSP responder URL among a certificate's extensions gives.
pub enum UrlSearch {
    Found(Seq<char>),
    NotFound,
    OutOfRange,
}

/// The URL of the first AIA extension whose value yields one; extensions whose value
/// yields none are passed over.
pub open spec fn ocsp_url_search(exts: Seq<(Seq<char>, Seq<u8>)>) -> UrlSearch
    decreases exts.len(),
{
    if exts.len() == 0 {
        UrlSearch::NotFound
    } else if exts[0].0 == AUTHORITY_INFO_ACCESS_OID@ {
        match aia_result(exts[0].1) {
            AiaScan::OutOfRange => UrlSearch::OutOfRange,
            AiaScan::Found(b) => if valid_utf8(b) {
                UrlSearch::Found(decode_utf8(b))
            } else {
                ocsp_url_search(exts.drop_first())
            },
            _ => ocsp_url_search(exts.drop_first()),
        }
    } else {
        ocsp_url_search(exts.drop_first())
    }
}

/// The OCSP responder URL of a certificate with these extensions.
pub open spec fn ocsp_url_of(exts: Option<Seq<(Seq<char>, Seq<u8>)>>) -> UrlSearch {
    match exts {
        Some(e) => ocsp_url_search(e),
        None => UrlSearch::NotFound,
    }
}

/// What DER decoding of `der` as an OCTET STRING gives: its content, or nothing.
pub uninterp spec fn der_octet_string(der: Seq<u8>) -> Option<Seq<u8>>;

/// The key identifier of the first Subject Key Identifier extension, if it decodes.
pub open spec fn ski_search(exts: Seq<(Seq<char>, Seq<u8>)>) -> Option<Seq<u8>>
    decreases exts.len(),
{
    if exts.len() == 0 {
        None
    } else if exts[0].0 == SUBJECT_KEY_IDENTIFIER_OID@ {
        der_octet_string(exts[0].1)
    } else {
        ski_search(exts.drop_first())
    }
}

/// The Subject Key Identifier of a certificate with these extensions.
pub open spec fn ski_of(exts: Option<Seq<(Seq<char>, Seq<u8>)>>) -> Option<Seq<u8>> {
    match exts {
        Some(e) => ski_search(e),
        None => None,
    }
}

/// An optional byte vector as plain values.
pub open spec fn bytes_option_view(o: Option<Vec<u8>>) -> Option<Seq<u8>> {
    match o {
        Some(v) => Some(v@),
        None => None,
    }
}

/// `der::asn1::OctetString::from_der`, its content copied out; a failure gives nothing.
/// Claims: the result is the named decoding of `der`.
#[verifier::external_body]
fn octet_string_content(der: &[u8]) -> (res: Option<Vec<u8>>)
    ensures
        bytes_option_view(res) == der_octet_string(der@),
{
    match <der::asn1::OctetString as der::Decode>::from_der(der) {
        Ok(o) => Some(o.as_bytes().to_vec()),
        Err(_) => None,
    }
}

/// The SHA-1 digest of `data`.
pub uninterp spec fn sha1(data: Seq<u8>) -> Seq<u8>;

/// `sha1::Sha1::digest`, copied out. Claims: the result is the named digest of `data`,
/// 20 bytes long.
#[verifier::external_body]
fn sha1_digest(data: &[u8]) -> (res: Vec<u8>)
    ensures
        res@ == sha1(data@),
        res@.len() == 20,
{
    <sha1::Sha1 as sha1::Digest>::digest(data).to_vec()
}

/// The DER encoding `x509_ocsp` gives the `CertId` with this hash algorithm (dotted
/// OID, no parameters), issuer name hash, issuer key hash and serial number; nothing
/// where one of the parts is refused.
pub uninterp spec fn ocsp_cert_id_encoding(
    hash_algorithm: Seq<char>,
    name_hash: Seq<u8>,
    key_hash: Seq<u8>,
    serial: Seq<u8>,
) -> Option<Seq<u8>>;

/// Builds an `x509_ocsp::CertId` from its parts and encodes it with
/// `der::Encode::to_der`; a refused part gives nothing. Claims: the result is the named
/// encoding.
#[verifier::external_body]
fn encode_cert_id(hash_algorithm: &str, name_hash: &[u8], key_hash: &[u8], serial: &[u8]) -> (res: Option<Vec<u8>>)
    ensures
        bytes_option_view(res) == ocsp_cert_id_encoding(hash_algorithm@, name_hash@, key_hash@, serial@),
{
    let oid = der::asn1::ObjectIdentifier::new(hash_algorithm).ok()?;
    let cert_id = x509_ocsp::CertId {
        hash_algorithm: x509_cert::spki::AlgorithmIdentifierOwned { oid, parameters: None },
        issuer_name_hash: der::asn1::OctetString::new(name_hash).ok()?,
        issuer_key_hash: der::asn1::OctetString::new(key_hash).ok()?,
        serial_number: x509_cert::serial_number::SerialNumber::new(serial).ok()?,
    };
    der::Encode::to_der(&cert_id).ok()
}

/// The fields of an OCSP `CertId` as plain values: the hash algorithm's dotted OID, the
/// issuer name hash, the issuer key hash and the serial number's bytes.
pub type CertIdFields = (Seq<char>, Seq<u8>, Seq<u8>, Seq<u8>);

/// The fields of a `CertId` as held.
pub open spec fn cert_id_fields_view(f: (String, Vec<u8>, Vec<u8>, Vec<u8>)) -> CertIdFields {
    (f.0@, f.1@, f.2@, f.3@)
}

/// The fields of the `CertId` that `x509_ocsp` builds from this hash algorithm (dotted
/// OID), issuer name hash, issuer key hash and serial number, as they read back; nothing
/// where one of the parts is refused.
pub uninterp spec fn ocsp_cert_id_fields(
    hash_algorithm: Seq<char>,
    name_hash: Seq<u8>,
    key_hash: Seq<u8>,
    serial: Seq<u8>,
) -> Option<CertIdFields>;

/// Builds an `x509_ocsp::CertId` from its parts, as [`encode_cert_id`] does, and reads
/// its fields back. Claims: the result is the named fields.
#[verifier::external_body]
fn cert_id_fields(hash_algorithm: &str, name_hash: &[u8], key_hash: &[u8], serial: &[u8]) -> (res: Option<
    (String, Vec<u8>, Vec<u8>, Vec<u8>),
>)
    ensures
        match res {
            Some(f) => ocsp_cert_id_fields(hash_algorithm@, name_hash@, key_hash@, serial@) == Some(
                cert_id_fields_view(f),
            ),
            None => ocsp_cert_id_fields(hash_algorithm@, name_hash@, key_hash@, serial@) is None,
        },
{
    let oid = der::asn1::ObjectIdentifier::new(hash_algorithm).ok()?;
    let name = der::asn1::OctetString::new(name_hash).ok()?;
    let key = der::asn1::OctetString::new(key_hash).ok()?;
    let serial_number = x509_cert::serial_number::SerialNumber::<x509_cert::certificate::Rfc5280>::new(serial).ok()?;
    Some((oid.to_string(), name.as_bytes().to_vec(), key.as_bytes().to_vec(), serial_number.as_bytes().to_vec()))
}

/// The DER encoding `x509_ocsp` gives an unsigned version-1 OCSP request asking about
/// the one certificate with the DER `CertId` `cert_id`; nothing where `cert_id` does
/// not decode.
pub uninterp spec fn ocsp_request_encoding(cert_id: Seq<u8>) -> Option<Seq<u8>>;

/// Decodes the `CertId`, builds an `x509_ocsp::OcspRequest` with one `Request` for it and
/// encodes it with `der::Encode::to_der`; its version is `Version::V1`, the one variant
/// that type has. Claims: the result is the named encoding.
#[verifier::external_body]
fn encode_ocsp_request(cert_id: &[u8]) -> (res: Option<Vec<u8>>)
    ensures
        bytes_option_view(res) == ocsp_request_encoding(cert_id@),
{
    let req_cert = <x509_ocsp::CertId as der::Decode>::from_der(cert_id).ok()?;
    let request_list = vec![x509_ocsp::Request { req_cert, single_request_extensions: None }];
    let version = x509_ocsp::Version::V1;
    let tbs_request = x509_ocsp::TbsRequest { version, requestor_name: None, request_list, request_extensions: None };
    der::Encode::to_der(&x509_ocsp::OcspRequest { tbs_request, optional_signature: None }).ok()
}

/// What DER decoding of an OCSP response gives: whether its status is `successful`, and
/// its response bytes (dotted type OID and content) where present; nothing where it
/// does not decode.
pub uninterp spec fn ocsp_response_parts(body: Seq<u8>) -> Option<(bool, Option<(Seq<char>, Seq<u8>)>)>;

/// The decoded parts of an OCSP response as plain values.
pub open spec fn response_parts_view(r: Option<(bool, Option<(String, Vec<u8>)>)>) -> Option<
    (bool, Option<(Seq<char>, Seq<u8>)>),
> {
    match r {
        None => None,
        Some((ok, None)) => Some((ok, None)),
        Some((ok, Some((t, b)))) => Some((ok, Some((t@, b@)))),
    }
}

/// `x509_ocsp::OcspResponse::from_der`, its status told apart and its response bytes
/// copied out. Claims: the result is the named decoding of `body`.
#[verifier::external_body]
fn read_ocsp_response(body: &[u8]) -> (res: Option<(bool, Option<(String, Vec<u8>)>)>)
    ensures
        response_parts_view(res) == ocsp_response_parts(body@),
{
    let response = <x509_ocsp::OcspResponse as der::Decode>::from_der(body).ok()?;
    let successful = match response.response_status {
        x509_ocsp::OcspResponseStatus::Successful => true,
        _ => false,
    };
    let bytes = match response.response_bytes {
        Some(b) => Some((b.response_type.to_string(), b.response.as_bytes().to_vec())),
        None => None,
    };
    Some((successful, bytes))
}

/// The single responses of a DER basic OCSP response, in order: the fields of each
/// one's `CertId` and the status it gives; nothing where it does not decode.
pub uninterp spec fn basic_ocsp_responses(bytes: Seq<u8>) -> Option<Seq<(CertIdFields, OcspCertStatus)>>;

/// A single response as held.
pub type HeldSingleResponse = ((String, Vec<u8>, Vec<u8>, Vec<u8>), OcspCertStatus);

/// The single responses as plain values.
pub open spec fn responses_view(r: Option<Vec<HeldSingleResponse>>) -> Option<Seq<(CertIdFields, OcspCertStatus)>> {
    match r {
        Some(v) => Some(v@.map_values(|e: HeldSingleResponse| (cert_id_fields_view(e.0), e.1))),
        None => None,
    }
}

/// `x509_ocsp::BasicOcspResponse::from_der`, each single response's `CertId` fields
/// copied out and its status told apart. Claims: the result is the named decoding of
/// `bytes`.
#[verifier::external_body]
fn read_basic_ocsp_response(bytes: &[u8]) -> (res: Option<Vec<HeldSingleResponse>>)
    ensures
        responses_view(res) == basic_ocsp_responses(bytes@),
{
    let basic = <x509_ocsp::BasicOcspResponse as der::Decode>::from_der(bytes).ok()?;
    let mut responses = Vec::new();
    for single in &basic.tbs_response_data.responses {
        let id = &single.cert_id;
        let (name, key) = (id.issuer_name_hash.as_bytes().to_vec(), id.issuer_key_hash.as_bytes().to_vec());
        let fields = (id.hash_algorithm.oid.to_string(), name, key, id.serial_number.as_bytes().to_vec());
        let status = match single.cert_status {
            x509_ocsp::CertStatus::Good(_) => OcspCertStatus::Good,
            x509_ocsp::CertStatus::Revoked(_) => OcspCertStatus::Revoked,
            x509_ocsp::CertStatus::Unknown(_) => OcspCertStatus::Unknown,
        };
        responses.push((fields, status));
    }
    Some(responses)
}

/// The status the first single response about the certificate with `CertId` fields
/// `cert_id` gives, if any does.
pub open spec fn status_for(responses: Seq<(CertIdFields, OcspCertStatus)>, cert_id: CertIdFields) -> Option<OcspCertStatus>
    decreases responses.len(),
{
    if responses.len() == 0 {
        None
    } else if responses[0].0 == cert_id {
        Some(responses[0].1)
    } else {
        status_for(responses.drop_first(), cert_id)
    }
}

/// What the responder's answer decides about the certificate with `CertId` fields
/// `cert_id`: the status of the single response about it.
pub open spec fn response_outcome(body: Seq<u8>, cert_id: CertIdFields) -> Result<(), OcspErrorView> {
    match ocsp_response_parts(body) {
        None => Err(OcspErrorView::ValidationError),
        Some((successful, bytes)) => if !successful {
            Err(OcspErrorView::ValidationError)
        } else {
            match bytes {
                None => Err(OcspErrorView::ValidationError),
                Some((response_type, response)) => if response_type != BASIC_OCSP_RESPONSE_OID@ {
                    Err(OcspErrorView::ValidationError)
                } else {
                    match basic_ocsp_responses(response) {
                        None => Err(OcspErrorView::ValidationError),
                        Some(responses) => match status_for(responses, cert_id) {
                            Some(OcspCertStatus::Good) => Ok(()),
                            Some(OcspCertStatus::Revoked) => Err(OcspErrorView::CertificateRevoked),
                            _ => Err(OcspErrorView::ValidationError),
                        },
                    }
                },
            }
        },
    }
}

/// What the exchange with the responder decides.
pub open spec fn exchange_outcome(x: OcspExchange, cert_id: CertIdFields) -> Result<(), OcspErrorView> {
    match x {
        OcspExchange::ClientFailed(m) => Err(OcspErrorView::NetworkError("Failed to build HTTP client: "@ + m@)),
        OcspExchange::SendFailed(m) => Err(OcspErrorView::NetworkError("OCSP request failed: "@ + m@)),
        OcspExchange::Answered(status, body) => if !(200 <= status < 300) {
            Err(OcspErrorView::HttpError(status))
        } else {
            match body {
                None => Err(OcspErrorView::FetchFailed),
                Some(b) => response_outcome(b@, cert_id),
            }
        },
    }
}

/// The hash algorithm of the request: SHA-1.
pub const SHA1_OID: &'static str = "1.3.14.3.2.26";

/// Where to send which request: the leaf's responder URL, the fields of the leaf's
/// `CertId` and the DER request about it; or why there is none.
pub open spec fn ocsp_request_plan(leaf: CertificateInfo, issuer: CertificateInfo) -> Result<
    (Seq<char>, CertIdFields, Seq<u8>),
    OcspErrorView,
> {
    match ocsp_url_of(extensions_view(leaf)) {
        UrlSearch::Found(url) => match ski_of(extensions_view(issuer)) {
            None => Err(OcspErrorView::ValidationError),
            Some(key_hash) => {
                let name_hash = sha1(issuer.subject_der@);
                match ocsp_cert_id_encoding(SHA1_OID@, name_hash, key_hash, leaf.serial_number@) {
                    None => Err(OcspErrorView::ValidationError),
                    Some(cert_id) => match ocsp_request_encoding(cert_id) {
                        None => Err(OcspErrorView::ValidationError),
                        Some(request) => match ocsp_cert_id_fields(SHA1_OID@, name_hash, key_hash, leaf.serial_number@) {
                            None => Err(OcspErrorView::ValidationError),
                            Some(fields) => Ok((url, fields, request)),
                        },
                    },
                }
            },
        },
        _ => Err(OcspErrorView::ValidationError),
    }
}

/// An OCSP result as plain values.
pub open spec fn ocsp_result_view(r: Result<(), OcspError>) -> Result<(), OcspErrorView> {
    match r {
        Ok(()) => Ok(()),
        Err(e) => Err(e@),
    }
}

/// How an OCSP failure is reported: network troubles are retryable, a revocation is a
/// revocation, and anything else is an invalid certificate.
pub open spec fn ocsp_failure_reason(e: OcspErrorView) -> ChainVerificationFailureReason {
    match e {
        OcspErrorView::NetworkError(_) => ChainVerificationFailureReason::RetryableVerificationFailure,
        OcspErrorView::HttpError(_) => ChainVerificationFailureReason::RetryableVerificationFailure,
        OcspErrorView::FetchFailed => ChainVerificationFailureReason::RetryableVerificationFailure,
        OcspErrorView::CertificateRevoked => ChainVerificationFailureReason::CertificateRevoked,
        OcspErrorView::ValidationError => ChainVerificationFailureReason::InvalidCertificate,
    }
}

/// An OCSP verdict as a chain-verification result.
pub open spec fn ocsp_verdict(r: Result<(), OcspErrorView>) -> Result<(), ChainVerificationFailureReason> {
    match r {
        Ok(()) => Ok(()),
        Err(e) => Err(ocsp_failure_reason(e)),
    }
}

/// A chain-verification result of an OCSP check as plain values; `None` for an error
/// other than a verification failure.
pub open spec fn check_view(r: Result<(), ChainVerifierError>) -> Option<Result<(), ChainVerificationFailureReason>> {
    match r {
        Ok(()) => Some(Ok(())),
        Err(ChainVerifierError::VerificationFailure(reason)) => Some(Err(reason)),
        Err(_) => None,
    }
}

/// What scanning an AIA extension value gave, as the scan holds it.
enum AiaScanned {
    Found(Vec<u8>),
    Malformed(String),
    NotFound,
    OutOfRange,
}

spec fn scanned_view(r: AiaScanned) -> AiaScan {
    match r {
        AiaScanned::Found(b) => AiaScan::Found(b@),
        AiaScanned::Malformed(m) => AiaScan::Malformed(m@),
        AiaScanned::NotFound => AiaScan::NotFound,
        AiaScanned::OutOfRange => AiaScan::OutOfRange,
    }
}

fn asn1_message(e: crate::asn1::asn1_basics::ASN1Error) -> (m: String)
    ensures
        m@ == asn1_error_text(e@),
{
    e.to_string()
}

/// Scans the AccessDescriptions of an AIA extension value for the first OCSP URI.
fn scan_aia(aia_bytes: &[u8]) -> (res: AiaScanned)
    ensures
        scanned_view(res) == aia_result(aia_bytes@),
{
    let (mut offset, length) = match read_sequence(aia_bytes, 0) {
        Ok(r) => r,
        Err(e) => return AiaScanned::Malformed(asn1_message(e)),
    };
    if length > usize::MAX - offset {
        return AiaScanned::OutOfRange;
    }
    let end_offset = offset + length;
    let ghost data = aia_bytes@;
    let data_len = aia_bytes.len();
    while offset < end_offset
        invariant
            data == aia_bytes@,
            data_len == data.len(),
            aia_scan(data, offset as int, end_offset as int) == aia_result(data),
        decreases if offset < end_offset { end_offset - offset } else { 0 },
    {
        let (desc_offset, desc_length) = match read_sequence(aia_bytes, offset) {
            Ok(r) => r,
            Err(e) => return AiaScanned::Malformed(asn1_message(e)),
        };
        proof {
            lemma_typed_header_advances(data, offset as int, tag_is(TAG_SEQUENCE), "Expected SEQUENCE (0x30), got 0x"@);
        }
        assert(typed_header(data, offset as int, tag_is(TAG_SEQUENCE), "Expected SEQUENCE (0x30), got 0x"@)
            == Ok::<(int, usize), Seq<char>>((desc_offset as int, desc_length)));
        if desc_length > usize::MAX - desc_offset {
            return AiaScanned::OutOfRange;
        }
        let desc_end = desc_offset + desc_length;
        let (oid_offset, oid_length) = match read_oid(aia_bytes, desc_offset) {
            Ok(r) => r,
            Err(e) => return AiaScanned::Malformed(asn1_message(e)),
        };
        assert(typed_header(data, desc_offset as int, tag_is(TAG_OID), "Expected OID (0x06), got 0x"@)
            == Ok::<(int, usize), Seq<char>>((oid_offset as int, oid_length)));
        if oid_offset > data_len || oid_length > data_len - oid_offset {
            return AiaScanned::OutOfRange;
        }
        let location_offset = oid_offset + oid_length;
        if is_ocsp_access_method(aia_bytes, oid_offset, location_offset) {
            let (tag, uri_length, uri_offset) = match read_tlv(aia_bytes, location_offset) {
                Ok(r) => r,
                Err(e) => return AiaScanned::Malformed(asn1_message(e)),
            };
            if tag == TAG_URI {
                if uri_offset > data_len || uri_length > data_len - uri_offset {
                    return AiaScanned::OutOfRange;
                }
                let uri_end = uri_offset + uri_length;
                let uri_bytes = vstd::slice::slice_subrange(aia_bytes, uri_offset, uri_end);
                return AiaScanned::Found(vstd::slice::slice_to_vec(uri_bytes));
            }
        }
        offset = desc_end;
    }
    AiaScanned::NotFound
}

impl ChainVerifier {
    /// Finds the OCSP responder URL in an Authority Information Access extension value:
    /// the URI of the first AccessDescription whose method is OCSP.
    pub fn parse_aia_for_ocsp(&self, aia_bytes: &[u8]) -> (res: Result<String, ChainVerifierError>)
        requires
            !(aia_result(aia_bytes@) is OutOfRange),
        ensures
            match aia_result(aia_bytes@) {
                AiaScan::Found(b) => if valid_utf8(b) {
                    res matches Ok(s) && s@ == decode_utf8(b)
                } else {
                    res matches Err(e) && is_invalid_certificate(e)
                },
                AiaScan::Malformed(m) => res matches Err(e) && e matches ChainVerifierError::InternalX509Error(t)
                    && t@ == m,
                _ => res matches Err(e) && is_invalid_certificate(e),
            },
    {
        match scan_aia(aia_bytes) {
            AiaScanned::Found(uri) => match utf8_to_string(uri.as_slice()) {
                Ok(url) => Ok(url),
                Err(_) => Err(invalid_certificate()),
            },
            AiaScanned::Malformed(m) => Err(ChainVerifierError::InternalX509Error(m)),
            AiaScanned::NotFound => Err(invalid_certificate()),
            AiaScanned::OutOfRange => Err(invalid_certificate()),
        }
    }

    /// Whether looking for the OCSP responder URL of `cert` stays within the data of
    /// its extensions; where it does not, the lookup is not defined.
    pub fn ocsp_url_lookup_fits(&self, cert: &CertificateInfo) -> (r: bool)
        ensures
            r == !(ocsp_url_of(extensions_view(*cert)) is OutOfRange),
    {
        let extensions = match &cert.extensions {
            Some(e) => e,
            None => return true,
        };
        let ghost exts = extension_list_view(extensions@);
        assert(exts.skip(0) =~= exts);
        let aia_oid = String::from_str(AUTHORITY_INFO_ACCESS_OID);
        let mut i: usize = 0;
        while i < extensions.len()
            invariant
                exts == extension_list_view(extensions@),
                extensions_view(*cert) == Some(exts),
                aia_oid@ == AUTHORITY_INFO_ACCESS_OID@,
                i <= extensions@.len(),
                ocsp_url_search(exts.skip(i as int)) == ocsp_url_search(exts),
            decreases extensions@.len() - i,
        {
            let ext = &extensions[i];
            assert(exts.skip(i as int)[0] == extension_view(*ext));
            assert(exts.skip(i as int).drop_first() =~= exts.skip(i + 1));
            if ext.oid == aia_oid {
                assert(exts.skip(i as int)[0].0 == AUTHORITY_INFO_ACCESS_OID@);
                match scan_aia(ext.value.as_slice()) {
                    AiaScanned::OutOfRange => return false,
                    AiaScanned::Found(uri) => {
                        if utf8_to_string(uri.as_slice()).is_ok() {
                            return true;
                        }
                    },
                    _ => {},
                }
            }
            i += 1;
        }
        assert(exts.skip(i as int).len() == 0);
        true
    }

    /// Extracts the OCSP responder URL from a certificate's Authority Information Access
    /// extension: the first one found.
    pub fn extract_ocsp_url(&self, cert: &CertificateInfo) -> (res: Result<String, ChainVerifierError>)
        requires
            !(ocsp_url_of(extensions_view(*cert)) is OutOfRange),
        ensures
            match ocsp_url_of(extensions_view(*cert)) {
                UrlSearch::Found(url) => res matches Ok(s) && s@ == url,
                _ => res matches Err(e) && is_invalid_certificate(e),
            },
    {
        let extensions = match &cert.extensions {
            Some(e) => e,
            None => return Err(invalid_certificate()),
        };
        let ghost exts = extension_list_view(extensions@);
        assert(exts.skip(0) =~= exts);
        let aia_oid = String::from_str(AUTHORITY_INFO_ACCESS_OID);
        let mut i: usize = 0;
        while i < extensions.len()
            invariant
                exts == extension_list_view(extensions@),
                extensions_view(*cert) == Some(exts),
                aia_oid@ == AUTHORITY_INFO_ACCESS_OID@,
                i <= extensions@.len(),
                ocsp_url_search(exts.skip(i as int)) == ocsp_url_search(exts),
                !(ocsp_url_search(exts) is OutOfRange),
            decreases extensions@.len() - i,
        {
            let ext = &extensions[i];
            assert(exts.skip(i as int)[0] == extension_view(*ext));
            assert(exts.skip(i as int).drop_first() =~= exts.skip(i + 1));
            if ext.oid == aia_oid {
                assert(exts.skip(i as int).len() > 0);
                assert(exts.skip(i as int)[0].0 == AUTHORITY_INFO_ACCESS_OID@);
                assert(exts.skip(i as int)[0].1 == ext.value@);
                if let Ok(url) = self.parse_aia_for_ocsp(ext.value.as_slice()) {
                    assert(ocsp_url_search(exts.skip(i as int)) == UrlSearch::Found(url@));
                    return Ok(url);
                }
            }
            i += 1;
        }
        assert(exts.skip(i as int).len() == 0);
        Err(invalid_certificate())
    }

    /// Extracts the Subject Key Identifier of an issuer certificate: the content of the
    /// first such extension.
    pub fn extract_ski(&self, issuer: &CertificateInfo) -> (res: Result<Vec<u8>, ChainVerifierError>)
        ensures
            match ski_of(extensions_view(*issuer)) {
                Some(key) => res matches Ok(k) && k@ == key,
                None => res matches Err(e) && is_invalid_certificate(e),
            },
    {
        let extensions = match &issuer.extensions {
            Some(e) => e,
            None => return Err(invalid_certificate()),
        };
        let ghost exts = extension_list_view(extensions@);
        assert(exts.skip(0) =~= exts);
        let ski_oid = String::from_str(SUBJECT_KEY_IDENTIFIER_OID);
        let mut i: usize = 0;
        while i < extensions.len()
            invariant
                exts == extension_list_view(extensions@),
                extensions_view(*issuer) == Some(exts),
                ski_oid@ == SUBJECT_KEY_IDENTIFIER_OID@,
                i <= extensions@.len(),
                ski_search(exts.skip(i as int)) == ski_search(exts),
            decreases extensions@.len() - i,
        {
            let ext = &extensions[i];
            assert(exts.skip(i as int)[0] == extension_view(*ext));
            assert(exts.skip(i as int).drop_first() =~= exts.skip(i + 1));
            if ext.oid == ski_oid {
                assert(exts.skip(i as int).len() > 0);
                assert(exts.skip(i as int)[0].0 == SUBJECT_KEY_IDENTIFIER_OID@);
                assert(exts.skip(i as int)[0].1 == ext.value@);
                return match octet_string_content(ext.value.as_slice()) {
                    Some(key) => Ok(key),
                    None => Err(invalid_certificate()),
                };
            }
            i += 1;
        }
        assert(exts.skip(i as int).len() == 0);
        Err(invalid_certificate())
    }

    /// The responder's URL, the fields of the `CertId` of `leaf` and the DER request
    /// about it to send there, for `leaf` issued by `issuer`.
    fn ocsp_request(&self, leaf: &CertificateInfo, issuer: &CertificateInfo) -> (res: Result<
        (String, (String, Vec<u8>, Vec<u8>, Vec<u8>), Vec<u8>),
        OcspError,
    >)
        requires
            !(ocsp_url_of(extensions_view(*leaf)) is OutOfRange),
        ensures
            match ocsp_request_plan(*leaf, *issuer) {
                Ok((url, cert_id, request)) => res matches Ok((u, c, r)) && u@ == url && cert_id_fields_view(c)
                    == cert_id && r@ == request,
                Err(e) => res matches Err(x) && x@ == e,
            },
            res matches Ok((u, c, r)) ==> (ski_of(extensions_view(*issuer)) matches Some(key_hash)
                && ocsp_cert_id_fields(SHA1_OID@, sha1(issuer.subject_der@), key_hash, leaf.serial_number@) == Some(
                cert_id_fields_view(c),
            )),
            res matches Ok((u, c, r)) ==> (ski_of(extensions_view(*issuer)) matches Some(key_hash)
                && ocsp_cert_id_encoding(SHA1_OID@, sha1(issuer.subject_der@), key_hash, leaf.serial_number@)
                matches Some(d) && ocsp_request_encoding(d) == Some(r@)),
    {
        let ocsp_url = match self.extract_ocsp_url(leaf) {
            Ok(u) => u,
            Err(_) => return Err(OcspError::ValidationError),
        };
        let issuer_name_hash = sha1_digest(issuer.subject_der.as_slice());
        let issuer_key_hash = match self.extract_ski(issuer) {
            Ok(k) => k,
            Err(_) => return Err(OcspError::ValidationError),
        };
        let cert_id = match encode_cert_id(
            SHA1_OID,
            issuer_name_hash.as_slice(),
            issuer_key_hash.as_slice(),
            leaf.serial_number.as_slice(),
        ) {
            Some(c) => c,
            None => return Err(OcspError::ValidationError),
        };
        let request = match encode_ocsp_request(cert_id.as_slice()) {
            Some(r) => r,
            None => return Err(OcspError::ValidationError),
        };
        match cert_id_fields(
            SHA1_OID,
            issuer_name_hash.as_slice(),
            issuer_key_hash.as_slice(),
            leaf.serial_number.as_slice(),
        ) {
            Some(fields) => Ok((ocsp_url, fields, request)),
            None => Err(OcspError::ValidationError),
        }
    }

    /// Whether a single response's `CertId` fields are those of `cert_id`.
    fn same_cert_id(a: &(String, Vec<u8>, Vec<u8>, Vec<u8>), b: &(String, Vec<u8>, Vec<u8>, Vec<u8>)) -> (r: bool)
        ensures
            r == (cert_id_fields_view(*a) == cert_id_fields_view(*b)),
    {
        a.0 == b.0 && bytes_equal(a.1.as_slice(), b.1.as_slice()) && bytes_equal(a.2.as_slice(), b.2.as_slice())
            && bytes_equal(a.3.as_slice(), b.3.as_slice())
    }

    /// What the body of a successful answer decides about the certificate with `CertId`
    /// fields `cert_id`.
    fn check_response(&self, body: &[u8], cert_id: &(String, Vec<u8>, Vec<u8>, Vec<u8>)) -> (res: Result<
        (),
        OcspError,
    >)
        ensures
            ocsp_result_view(res) == response_outcome(body@, cert_id_fields_view(*cert_id)),
    {
        let (successful, bytes) = match read_ocsp_response(body) {
            Some(parts) => parts,
            None => return Err(OcspError::ValidationError),
        };
        if !successful {
            return Err(OcspError::ValidationError);
        }
        let (response_type, response) = match bytes {
            Some(b) => b,
            None => return Err(OcspError::ValidationError),
        };
        if response_type != String::from_str(BASIC_OCSP_RESPONSE_OID) {
            return Err(OcspError::ValidationError);
        }
        assert(response_type@ == BASIC_OCSP_RESPONSE_OID@);
        let responses = match read_basic_ocsp_response(response.as_slice()) {
            Some(r) => r,
            None => return Err(OcspError::ValidationError),
        };
        let ghost rs = responses@.map_values(|e: HeldSingleResponse| (cert_id_fields_view(e.0), e.1));
        let ghost wanted = cert_id_fields_view(*cert_id);
        assert(rs.skip(0) =~= rs);
        let mut i: usize = 0;
        while i < responses.len()
            invariant
                rs == responses@.map_values(|e: HeldSingleResponse| (cert_id_fields_view(e.0), e.1)),
                wanted == cert_id_fields_view(*cert_id),
                i <= responses@.len(),
                status_for(rs.skip(i as int), wanted) == status_for(rs, wanted),
                ocsp_response_parts(body@) == Some((true, Some((BASIC_OCSP_RESPONSE_OID@, response@)))),
                basic_ocsp_responses(response@) == Some(rs),
            decreases responses@.len() - i,
        {
            let entry = &responses[i];
            assert(rs.skip(i as int)[0] == (cert_id_fields_view(entry.0), entry.1));
            assert(rs.skip(i as int).drop_first() =~= rs.skip(i + 1));
            if Self::same_cert_id(&entry.0, cert_id) {
                return match entry.1 {
                    OcspCertStatus::Good => Ok(()),
                    OcspCertStatus::Revoked => Err(OcspError::CertificateRevoked),
                    OcspCertStatus::Unknown => Err(OcspError::ValidationError),
                };
            }
            i += 1;
        }
        assert(rs.skip(i as int).len() == 0);
        Err(OcspError::ValidationError)
    }

    /// What the exchange with the responder decides about the certificate with `CertId`
    /// fields `cert_id`.
    fn check_exchange(&self, exchange: OcspExchange, cert_id: &(String, Vec<u8>, Vec<u8>, Vec<u8>)) -> (res: Result<
        (),
        OcspError,
    >)
        ensures
            ocsp_result_view(res) == exchange_outcome(exchange, cert_id_fields_view(*cert_id)),
    {
        match exchange {
            OcspExchange::ClientFailed(m) => {
                let mut s = String::from_str("Failed to build HTTP client: ");
                s.append(m.as_str());
                Err(OcspError::NetworkError(s))
            },
            OcspExchange::SendFailed(m) => {
                let mut s = String::from_str("OCSP request failed: ");
                s.append(m.as_str());
                Err(OcspError::NetworkError(s))
            },
            OcspExchange::Answered(status, body) => {
                if !(200 <= status && status < 300) {
                    return Err(OcspError::HttpError(status));
                }
                match body {
                    None => Err(OcspError::FetchFailed),
                    Some(b) => self.check_response(b.as_slice(), cert_id),
                }
            },
        }
    }

    /// The OCSP check of `leaf`, issued by `issuer`; `exchange` sends the DER request to
    /// the responder's URL and reports what came of it.
    fn check_ocsp_status_internal<F>(&self, leaf: &CertificateInfo, issuer: &CertificateInfo, exchange: F) -> (res:
        Result<(), OcspError>)
        where
            F: FnOnce(&str, &[u8]) -> OcspExchange,
        requires
            !(ocsp_url_of(extensions_view(*leaf)) is OutOfRange),
            forall|url: &str, request: &[u8]| exchange.requires((url, request)),
        ensures
            match ocsp_request_plan(*leaf, *issuer) {
                Err(e) => res matches Err(x) && x@ == e,
                Ok((url, cert_id, request)) => exists|u: &str, r: &[u8], x: OcspExchange|
                    {
                        &&& u@ == url
                        &&& r@ == request
                        &&& exchange.ensures((u, r), x)
                        &&& ocsp_result_view(res) == exchange_outcome(x, cert_id)
                    },
            },
    {
        let (url, cert_id, request) = self.ocsp_request(leaf, issuer)?;
        let url_text = url.as_str();
        let request_bytes = request.as_slice();
        let answer = exchange(url_text, request_bytes);
        let ghost seen = answer;
        let res = self.check_exchange(answer, &cert_id);
        assert(exchange.ensures((url_text, request_bytes), seen));
        res
    }

    /// Checks the OCSP revocation status of `leaf`, issued by `issuer`, with the
    /// responder named in the leaf's Authority Information Access extension.
    /// `exchange` sends the DER request to that URL (with a five-second timeout) and
    /// reports what came of it. The leaf's status is that of the first single response
    /// whose `CertId` has the hash algorithm, issuer name hash, issuer key hash and serial
    /// number of the request. Network troubles are retryable failures, a revoked
    /// certificate is reported as such, and anything else (no response about the leaf,
    /// an unknown status, a malformed answer) is an invalid certificate.
    pub fn check_ocsp_status<F>(&self, leaf: &CertificateInfo, issuer: &CertificateInfo, exchange: F) -> (res:
        Result<(), ChainVerifierError>)
        where
            F: FnOnce(&str, &[u8]) -> OcspExchange,
        requires
            !(ocsp_url_of(extensions_view(*leaf)) is OutOfRange),
            forall|url: &str, request: &[u8]| exchange.requires((url, request)),
        ensures
            match ocsp_request_plan(*leaf, *issuer) {
                Err(e) => check_view(res) == Some(ocsp_verdict(Err(e))),
                Ok((url, cert_id, request)) => exists|u: &str, r: &[u8], x: OcspExchange|
                    {
                        &&& u@ == url
                        &&& r@ == request
                        &&& exchange.ensures((u, r), x)
                        &&& check_view(res) == Some(ocsp_verdict(exchange_outcome(x, cert_id)))
                    },
            },
    {
        match self.check_ocsp_status_internal(leaf, issuer, exchange) {
            Ok(()) => Ok(()),
            Err(OcspError::NetworkError(_)) | Err(OcspError::HttpError(_)) | Err(OcspError::FetchFailed) => Err(
                ChainVerifierError::VerificationFailure(ChainVerificationFailureReason::RetryableVerificationFailure),
            ),
            Err(OcspError::CertificateRevoked) => Err(
                ChainVerifierError::VerificationFailure(ChainVerificationFailureReason::CertificateRevoked),
            ),
            Err(OcspError::ValidationError) => Err(invalid_certificate()),
        }
    }
}


/// The OCSP request about a leaf does not depend on the leaf's own subject name: the
/// `CertId` hashes the issuer's name, so two leaves with the same serial number and
/// extensions give the same request, `CertId` and responder.
pub proof fn lemma_ocsp_request_ignores_leaf_subject(
    leaf: CertificateInfo,
    other_leaf: CertificateInfo,
    issuer: CertificateInfo,
)
    requires
        other_leaf.serial_number@ == leaf.serial_number@,
        extensions_view(other_leaf) == extensions_view(leaf),
    ensures
        ocsp_request_plan(leaf, issuer) == ocsp_request_plan(other_leaf, issuer),
{
}

/// The issuer's subject name enters the OCSP request only through its SHA-1 hash: two
/// issuers with the same extensions whose subject names hash alike give the same
/// request about a leaf.
pub proof fn lemma_ocsp_request_hashes_issuer_subject(
    leaf: CertificateInfo,
    issuer: CertificateInfo,
    other_issuer: CertificateInfo,
)
    requires
        extensions_view(other_issuer) == extensions_view(issuer),
        sha1(other_issuer.subject_der@) == sha1(issuer.subject_der@),
    ensures
        ocsp_request_plan(leaf, issuer) == ocsp_request_plan(leaf, other_issuer),
{
}

} // verus!
