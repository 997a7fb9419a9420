use app_store_server_library::chain_verifier::{ChainVerificationFailureReason, ChainVerifier, ChainVerifierError};
use app_store_server_library::chain_verifier_ocsp::{CertificateExtension, CertificateInfo, OcspExchange};
use der::asn1::{ObjectIdentifier, OctetString};
use der::{Decode, Encode};
use x509_cert::serial_number::SerialNumber;
use x509_cert::spki::AlgorithmIdentifierOwned;
use x509_ocsp::{CertId, OcspRequest, OcspResponse, OcspResponseStatus, Request, TbsRequest};

const GOOD: &str = "3081ad0a0100a081a73081a406092b0601050507300101048196308193307aa21604143333333333333333333333333333333333333333180f32303234303130313030303030305a304f304d3038300706052b0e03021a0414f944dcd635f9801f7ac90a407fbc479964dec024041455555555555555555555555555555555555555550201018000180f32303234303130313030303030305a300a06082a8648ce3d0403020309004444444444444444";
const REVOKED: &str = "3081bf0a0100a081b93081b606092b06010505073001010481a83081a530818ba21604143333333333333333333333333333333333333333180f32303234303130313030303030305a3060305e3038300706052b0e03021a0414f944dcd635f9801f7ac90a407fbc479964dec02404145555555555555555555555555555555555555555020101a111180f32303234303130313030303030305a180f32303234303130313030303030305a300a06082a8648ce3d0403020309004444444444444444";
const UNKNOWN: &str = "3081ad0a0100a081a73081a406092b0601050507300101048196308193307aa21604143333333333333333333333333333333333333333180f32303234303130313030303030305a304f304d3038300706052b0e03021a0414f944dcd635f9801f7ac90a407fbc479964dec024041455555555555555555555555555555555555555550201018200180f32303234303130313030303030305a300a06082a8648ce3d0403020309004444444444444444";
// Answers that list another certificate (issuer name hash 11.., key hash 22..) besides,
// or instead of, the leaf.
const OTHER_GOOD: &str = "3081ad0a0100a081a73081a406092b0601050507300101048196308193307aa21604143333333333333333333333333333333333333333180f32303234303130313030303030305a304f304d3038300706052b0e03021a04141111111111111111111111111111111111111111041422222222222222222222222222222222222222220201018000180f32303234303130313030303030305a300a06082a8648ce3d0403020309004444444444444444";
const OTHER_GOOD_THEN_REVOKED: &str = "308201110a0100a082010a3082010606092b06010505073001010481f83081f53081dba21604143333333333333333333333333333333333333333180f32303234303130313030303030305a3081af304d3038300706052b0e03021a04141111111111111111111111111111111111111111041422222222222222222222222222222222222222220201018000180f32303234303130313030303030305a305e3038300706052b0e03021a0414f944dcd635f9801f7ac90a407fbc479964dec02404145555555555555555555555555555555555555555020101a111180f32303234303130313030303030305a180f32303234303130313030303030305a300a06082a8648ce3d0403020309004444444444444444";
const OTHER_REVOKED_THEN_GOOD: &str = "308201110a0100a082010a3082010606092b06010505073001010481f83081f53081dba21604143333333333333333333333333333333333333333180f32303234303130313030303030305a3081af305e3038300706052b0e03021a0414111111111111111111111111111111111111111104142222222222222222222222222222222222222222020101a111180f32303234303130313030303030305a180f32303234303130313030303030305a304d3038300706052b0e03021a0414f944dcd635f9801f7ac90a407fbc479964dec024041455555555555555555555555555555555555555550201018000180f32303234303130313030303030305a300a06082a8648ce3d0403020309004444444444444444";
// The leaf revoked, its CertId written with a NULL hash-algorithm parameter.
const REVOKED_WITH_NULL_PARAMETER: &str = "3081c10a0100a081bb3081b806092b06010505073001010481aa3081a730818da21604143333333333333333333333333333333333333333180f32303234303130313030303030305a30623060303a300906052b0e03021a05000414f944dcd635f9801f7ac90a407fbc479964dec02404145555555555555555555555555555555555555555020101a111180f32303234303130313030303030305a180f32303234303130313030303030305a300a06082a8648ce3d0403020309004444444444444444";
const TRY_LATER: &str = "30030a0103";
const AIA: &str = "304c302406082b060105050730028618687474703a2f2f63612e6578616d706c652f63612e636572302406082b060105050730018618687474703a2f2f6f6373702e6578616d706c652f6f637370";
const AIA_NO_OCSP: &str = "3026302406082b060105050730028618687474703a2f2f63612e6578616d706c652f63612e636572";
const SKI: &str = "04145555555555555555555555555555555555555555";

fn hex(s: &str) -> Vec<u8> {
    (0..s.len()).step_by(2).map(|i| u8::from_str_radix(&s[i..i + 2], 16).unwrap()).collect()
}

fn ext(oid: &str, value: &str) -> CertificateExtension {
    CertificateExtension { oid: oid.to_string(), value: hex(value) }
}

fn leaf() -> CertificateInfo {
    CertificateInfo {
        subject_der: vec![0x30, 0x00],
        serial_number: vec![0x01],
        extensions: Some(vec![ext("2.5.29.15", "030205a0"), ext("1.3.6.1.5.5.7.1.1", AIA)]),
    }
}

fn issuer() -> CertificateInfo {
    CertificateInfo {
        subject_der: vec![0x30, 0x00],
        serial_number: vec![0x02],
        extensions: Some(vec![ext("2.5.29.14", SKI)]),
    }
}

fn failure(reason: ChainVerificationFailureReason) -> Result<(), ChainVerifierError> {
    Err(ChainVerifierError::VerificationFailure(reason))
}

#[test]
fn aia_yields_the_ocsp_uri() {
    let verifier = ChainVerifier::new(vec![]);
    assert_eq!(verifier.parse_aia_for_ocsp(&hex(AIA)).unwrap(), "http://ocsp.example/ocsp");
    assert_eq!(
        verifier.parse_aia_for_ocsp(&hex(AIA_NO_OCSP)),
        Err(ChainVerifierError::VerificationFailure(ChainVerificationFailureReason::InvalidCertificate))
    );
    match verifier.parse_aia_for_ocsp(&[0x04, 0x00]) {
        Err(ChainVerifierError::InternalX509Error(m)) => {
            assert_eq!(m, "ASN1DecodeError: [Expected SEQUENCE (0x30), got 0x04]")
        }
        other => panic!("unexpected {:?}", other),
    }
}

#[test]
fn ocsp_url_comes_from_the_aia_extension() {
    let verifier = ChainVerifier::new(vec![]);
    assert!(verifier.ocsp_url_lookup_fits(&leaf()));
    assert_eq!(verifier.extract_ocsp_url(&leaf()).unwrap(), "http://ocsp.example/ocsp");
    let bare = CertificateInfo { subject_der: vec![], serial_number: vec![], extensions: None };
    assert_eq!(verifier.extract_ocsp_url(&bare), Err(ChainVerifierError::VerificationFailure(ChainVerificationFailureReason::InvalidCertificate)));
    let no_ocsp = CertificateInfo {
        subject_der: vec![],
        serial_number: vec![],
        extensions: Some(vec![ext("1.3.6.1.5.5.7.1.1", AIA_NO_OCSP)]),
    };
    assert!(verifier.extract_ocsp_url(&no_ocsp).is_err());
}

#[test]
fn an_aia_pointing_past_its_data_is_not_looked_up() {
    let verifier = ChainVerifier::new(vec![]);
    // One AccessDescription whose OID claims 100 bytes.
    let cert = CertificateInfo {
        subject_der: vec![],
        serial_number: vec![],
        extensions: Some(vec![ext("1.3.6.1.5.5.7.1.1", "30063004066401ff")]),
    };
    assert!(!verifier.ocsp_url_lookup_fits(&cert));
}

#[test]
fn ski_is_the_octet_string_content() {
    let verifier = ChainVerifier::new(vec![]);
    assert_eq!(verifier.extract_ski(&issuer()).unwrap(), vec![0x55; 20]);
    let broken = CertificateInfo {
        subject_der: vec![],
        serial_number: vec![],
        extensions: Some(vec![ext("2.5.29.14", "0201")]),
    };
    assert!(verifier.extract_ski(&broken).is_err());
    assert!(verifier.extract_ski(&leaf()).is_err());
}

#[test]
fn good_revoked_and_unknown_answers() {
    let verifier = ChainVerifier::new(vec![]);
    let answer = |body: &'static str| move |url: &str, request: &[u8]| {
        assert_eq!(url, "http://ocsp.example/ocsp");
        assert_eq!(request[0], 0x30, "the request is a DER SEQUENCE");
        OcspExchange::Answered(200, Some(hex(body)))
    };
    assert_eq!(verifier.check_ocsp_status(&leaf(), &issuer(), answer(GOOD)), Ok(()));
    assert_eq!(
        verifier.check_ocsp_status(&leaf(), &issuer(), answer(REVOKED)),
        failure(ChainVerificationFailureReason::CertificateRevoked)
    );
    assert_eq!(
        verifier.check_ocsp_status(&leaf(), &issuer(), answer(UNKNOWN)),
        failure(ChainVerificationFailureReason::InvalidCertificate)
    );
    assert_eq!(
        verifier.check_ocsp_status(&leaf(), &issuer(), answer(TRY_LATER)),
        failure(ChainVerificationFailureReason::InvalidCertificate)
    );
    assert_eq!(
        verifier.check_ocsp_status(&leaf(), &issuer(), answer("0000")),
        failure(ChainVerificationFailureReason::InvalidCertificate)
    );
}

#[test]
fn the_status_is_the_one_given_for_the_leaf() {
    let verifier = ChainVerifier::new(vec![]);
    let answer = |body: &'static str| move |_: &str, _: &[u8]| OcspExchange::Answered(200, Some(hex(body)));
    assert_eq!(
        verifier.check_ocsp_status(&leaf(), &issuer(), answer(OTHER_GOOD_THEN_REVOKED)),
        failure(ChainVerificationFailureReason::CertificateRevoked)
    );
    assert_eq!(verifier.check_ocsp_status(&leaf(), &issuer(), answer(OTHER_REVOKED_THEN_GOOD)), Ok(()));
    assert_eq!(
        verifier.check_ocsp_status(&leaf(), &issuer(), answer(OTHER_GOOD)),
        failure(ChainVerificationFailureReason::InvalidCertificate)
    );
    assert_eq!(
        verifier.check_ocsp_status(&leaf(), &issuer(), answer(REVOKED_WITH_NULL_PARAMETER)),
        failure(ChainVerificationFailureReason::CertificateRevoked)
    );
}

#[test]
fn the_request_asks_about_the_leaf() {
    let verifier = ChainVerifier::new(vec![]);
    let check = |_: &str, request: &[u8]| {
        let request = OcspRequest::from_der(request).unwrap();
        let list = &request.tbs_request.request_list;
        assert_eq!(list.len(), 1);
        let cert_id = &list[0].req_cert;
        assert_eq!(cert_id.hash_algorithm.oid, ObjectIdentifier::new_unwrap("1.3.14.3.2.26"));
        assert_eq!(cert_id.issuer_key_hash.as_bytes(), &[0x55u8; 20][..]);
        assert_eq!(cert_id.issuer_name_hash.as_bytes().len(), 20);
        assert_eq!(cert_id.serial_number.as_bytes(), &[0x01u8][..]);
        OcspExchange::Answered(200, Some(hex(GOOD)))
    };
    assert_eq!(verifier.check_ocsp_status(&leaf(), &issuer(), check), Ok(()));
}

#[test]
fn network_troubles_are_retryable() {
    let verifier = ChainVerifier::new(vec![]);
    let retryable = failure(ChainVerificationFailureReason::RetryableVerificationFailure);
    assert_eq!(
        verifier.check_ocsp_status(&leaf(), &issuer(), |_: &str, _: &[u8]| OcspExchange::ClientFailed("no tls".to_string())),
        retryable
    );
    assert_eq!(
        verifier.check_ocsp_status(&leaf(), &issuer(), |_: &str, _: &[u8]| OcspExchange::SendFailed("timeout".to_string())),
        retryable
    );
    assert_eq!(
        verifier.check_ocsp_status(&leaf(), &issuer(), |_: &str, _: &[u8]| OcspExchange::Answered(503, None)),
        retryable
    );
    assert_eq!(
        verifier.check_ocsp_status(&leaf(), &issuer(), |_: &str, _: &[u8]| OcspExchange::Answered(200, None)),
        retryable
    );
}

#[test]
fn no_request_is_sent_without_a_responder_or_key_identifier() {
    let verifier = ChainVerifier::new(vec![]);
    let never = |_: &str, _: &[u8]| -> OcspExchange { panic!("must not send") };
    let bare = CertificateInfo { subject_der: vec![], serial_number: vec![1], extensions: None };
    assert_eq!(
        verifier.check_ocsp_status(&bare, &issuer(), never),
        failure(ChainVerificationFailureReason::InvalidCertificate)
    );
    assert_eq!(
        verifier.check_ocsp_status(&leaf(), &bare, never),
        failure(ChainVerificationFailureReason::InvalidCertificate)
    );
}

// A certificate like the test CA: extensions, but no Authority Information Access.
fn ca_without_aia() -> CertificateInfo {
    CertificateInfo {
        subject_der: vec![0x30, 0x00],
        serial_number: vec![0x01],
        extensions: Some(vec![ext("2.5.29.19", "30030101ff"), ext("2.5.29.14", SKI)]),
    }
}

#[test]
fn test_extract_ocsp_url_missing_aia() {
    let cert = ca_without_aia();
    let verifier = ChainVerifier::new(vec![]);
    let result = verifier.extract_ocsp_url(&cert);
    assert!(result.is_err());
}

#[test]
fn test_extract_ocsp_url_with_aia() {
    let cert = ca_without_aia();
    let verifier = ChainVerifier::new(vec![]);
    let result = verifier.extract_ocsp_url(&cert);
    // Most test certificates don't have OCSP URLs
    assert!(result.is_err());
}

#[test]
fn test_ocsp_response_parsing() {
    let response = OcspResponse { response_status: OcspResponseStatus::Successful, response_bytes: None };
    let encoded = response.to_der().unwrap();
    let decoded = OcspResponse::from_der(&encoded).unwrap();
    assert_eq!(decoded.response_status, OcspResponseStatus::Successful);
}

#[test]
fn test_cert_id_creation() {
    let sha1_oid = ObjectIdentifier::new_unwrap("1.3.14.3.2.26");
    let hash_algorithm = AlgorithmIdentifierOwned { oid: sha1_oid, parameters: None };
    let issuer_name_hash = OctetString::new(&[0u8; 20]).unwrap();
    let issuer_key_hash = OctetString::new(&[0u8; 20]).unwrap();
    let serial = SerialNumber::new(&[1, 2, 3]).unwrap();
    let cert_id = CertId { hash_algorithm, issuer_name_hash, issuer_key_hash, serial_number: serial };
    assert_eq!(cert_id.issuer_name_hash.as_bytes().len(), 20);
    assert_eq!(cert_id.issuer_key_hash.as_bytes().len(), 20);
}

#[test]
fn test_ocsp_request_creation() {
    let sha1_oid = ObjectIdentifier::new_unwrap("1.3.14.3.2.26");
    let hash_algorithm = AlgorithmIdentifierOwned { oid: sha1_oid, parameters: None };
    let cert_id = CertId {
        hash_algorithm,
        issuer_name_hash: OctetString::new(&[0u8; 20]).unwrap(),
        issuer_key_hash: OctetString::new(&[0u8; 20]).unwrap(),
        serial_number: SerialNumber::new(&[1]).unwrap(),
    };
    let request = Request { req_cert: cert_id, single_request_extensions: None };
    let tbs_request = TbsRequest {
        version: x509_ocsp::Version::V1,
        requestor_name: None,
        request_list: vec![request],
        request_extensions: None,
    };
    let ocsp_request = OcspRequest { tbs_request, optional_signature: None };
    let encoded = ocsp_request.to_der();
    assert!(encoded.is_ok());
}
