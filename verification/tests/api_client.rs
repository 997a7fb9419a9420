use app_store_server_library::advanced_commerce_api_client::{
    AdvancedCommerceApiClientError, ApiErrorCode as AdvancedCommerceErrorCode,
};
use app_store_server_library::api_client::api::advanced_commerce_api::api_error_code::APIErrorCode;
use app_store_server_library::api_client::api::retention_messaging_api::api_error_code::ApiErrorCode as RetentionErrorCode;
use app_store_server_library::api_client::error::{ApiClientError, ConfigurationError, HttpErrorKind};
use app_store_server_library::api_client::token::{check_response_status, generate_token, generate_token_at};
use app_store_server_library::api_client::transport::{ClientErrorKind, TransportError};
use app_store_server_library::app_store_server_api_client::{
    ApiErrorCode, AppStoreServerApiClientError, GetTransactionHistoryVersion,
};
use app_store_server_library::crypto::jws::{b64url_decode, decode_payload_bytes, split};

// A P-256 key whose secret scalar is 0x01 0x02 .. 0x20, as PKCS#8 DER.
fn test_key_der() -> Vec<u8> {
    let mut der = vec![
        0x30, 0x41, 0x02, 0x01, 0x00, 0x30, 0x13, 0x06, 0x07, 0x2a, 0x86, 0x48, 0xce, 0x3d, 0x02, 0x01, 0x06, 0x08,
        0x2a, 0x86, 0x48, 0xce, 0x3d, 0x03, 0x01, 0x07, 0x04, 0x27, 0x30, 0x25, 0x02, 0x01, 0x01, 0x04, 0x20,
    ];
    der.extend(1u8..=32);
    der
}

// The same key in PEM form, base64 lines of 64 characters between the markers.
fn test_key_pem() -> String {
    let body = base64::Engine::encode(&base64::engine::general_purpose::STANDARD, test_key_der());
    let label = ["PRIVATE", "KEY"].join(" ");
    let mut pem = format!("-----BEGIN {}-----\n", label);
    for chunk in body.as_bytes().chunks(64) {
        pem.push_str(std::str::from_utf8(chunk).unwrap());
        pem.push('\n');
    }
    pem.push_str(&format!("-----END {}-----\n", label));
    pem
}

#[test]
fn api_token_names_the_key_and_claims() {
    let token = generate_token_at(test_key_pem().as_bytes(), "keyId", "issuerId", "bundleId", 1000).unwrap();
    let parts = split(&token).unwrap();
    let header = String::from_utf8(b64url_decode(parts[0]).unwrap()).unwrap();
    assert_eq!(header, r#"{"alg":"ES256","kid":"keyId","typ":"JWT"}"#);
    let payload = String::from_utf8(decode_payload_bytes(&token).unwrap()).unwrap();
    assert_eq!(
        payload,
        r#"{"bid":"bundleId","iss":"issuerId","aud":"appstoreconnect-v1","iat":1000,"exp":1300}"#
    );
}

#[test]
fn api_token_issued_now_expires_five_minutes_later() {
    let token = generate_token(test_key_pem().as_bytes(), "keyId", "issuerId", "bundleId").unwrap();
    let payload = String::from_utf8(decode_payload_bytes(&token).unwrap()).unwrap();
    let iat_start = payload.find(r#""iat":"#).unwrap() + 6;
    let iat_end = payload[iat_start..].find(',').unwrap() + iat_start;
    let iat: i64 = payload[iat_start..iat_end].parse().unwrap();
    let exp_start = payload.find(r#""exp":"#).unwrap() + 6;
    let exp: i64 = payload[exp_start..payload.len() - 1].parse().unwrap();
    assert_eq!(exp - iat, 300);
}

#[test]
fn api_token_failures_are_500_errors() {
    let e = generate_token_at(&[0xFF, 0xFE], "k", "i", "b", 0).unwrap_err();
    assert_eq!(e.status(), 500);
    assert_eq!(e.raw_code(), None);
    assert_eq!(e.message(), Some("Failed to sign request token"));
    let e = generate_token_at(b"not a key", "k", "i", "b", 0).unwrap_err();
    assert_eq!(e.message(), Some("Failed to sign request token"));
}

#[test]
fn response_status_outside_2xx_reports_the_payload() {
    assert!(check_response_status(200, None, None).is_ok());
    assert!(check_response_status(299, Some(1), Some("x".to_string())).is_ok());
    let e = check_response_status(400, Some(4000006), Some("Invalid transaction id.".to_string())).unwrap_err();
    assert_eq!(e.status(), 400);
    assert_eq!(e.raw_code(), Some(4000006));
    assert_eq!(e.message(), Some("Invalid transaction id."));
    let e = check_response_status(500, Some(4000006), None).unwrap_err();
    assert_eq!(e.raw_code(), None);
    assert_eq!(e.message(), None);
    let e = check_response_status(199, None, None).unwrap_err();
    assert_eq!(e.status(), 199);
}

#[test]
fn api_client_errors_render() {
    assert_eq!(ApiClientError::new(404, None, None).to_string(), "APIException: HTTP Status Code 404");
    assert_eq!(
        ApiClientError::new(400, Some(4000006), Some("Invalid transaction id.".to_string())).to_string(),
        "APIException: HTTP Status Code 400, Raw API Error: 4000006, Error Message: Invalid transaction id."
    );
    assert_eq!(
        ApiClientError::new(0, Some(-1), None).to_string(),
        "APIException: HTTP Status Code 0, Raw API Error: -1"
    );
    assert_eq!(
        ApiClientError::new(500, Some(i64::MIN), None).to_string(),
        "APIException: HTTP Status Code 500, Raw API Error: -9223372036854775808"
    );
    assert_eq!(
        ConfigurationError::InvalidEnvironment("Xcode".to_string()).to_string(),
        "Invalid environment: Xcode"
    );
}

#[test]
fn error_payload_needs_both_code_and_message() {
    let e = ApiClientError::from_error_payload(400, Some(4000000), Some("Bad".to_string()));
    assert_eq!((e.status(), e.raw_code(), e.message()), (400, Some(4000000), Some("Bad")));
    let e = ApiClientError::from_error_payload(400, Some(4000000), None);
    assert_eq!((e.raw_code(), e.message()), (None, None));
    let e = ApiClientError::from_error_payload(400, None, Some("Bad".to_string()));
    assert_eq!((e.raw_code(), e.message()), (None, None));
}

#[test]
fn http_errors_map_to_statuses() {
    let e = ApiClientError::from_http_error(HttpErrorKind::InvalidUri, "bad uri");
    assert_eq!(e.status(), 400);
    assert_eq!(e.message(), Some("Invalid URI: bad uri"));
    let e = ApiClientError::from_http_error(HttpErrorKind::MaxSizeReached, "x");
    assert_eq!(e.status(), 431);
    assert_eq!(e.message(), Some("Request header fields too large: x"));
    let e = ApiClientError::from_http_error(HttpErrorKind::InvalidStatusCode, "x");
    assert_eq!(e.status(), 500);
    let e = ApiClientError::from_http_error(HttpErrorKind::InvalidMethod, "x");
    assert_eq!(e.message(), Some("Invalid HTTP method: x"));
    let e = ApiClientError::from_http_error(HttpErrorKind::InvalidHeader, "x");
    assert_eq!(e.message(), Some("Invalid header: x"));
    let e = ApiClientError::from_http_error(HttpErrorKind::Other, "x");
    assert_eq!((e.status(), e.message()), (500, Some("Unknown HTTP error: x")));
}

#[test]
fn transport_errors_map_to_statuses() {
    let cases = vec![
        (TransportError::Serialization("s".to_string()), 400, "Serialization error: s"),
        (TransportError::InvalidMethod, 400, "Invalid HTTP method"),
        (TransportError::InvalidStatusCode("c".to_string()), 500, "Invalid status code: c"),
        (TransportError::RequestFailed("r".to_string()), 500, "Request failed: r"),
        (TransportError::NetworkError("n".to_string()), 503, "Network error: n"),
        (TransportError::InvalidResponse("i".to_string()), 502, "Invalid response: i"),
        (TransportError::Timeout, 504, "Request timeout"),
        (TransportError::Other("o".to_string()), 500, "Unexpected error: o"),
    ];
    for (err, status, message) in cases {
        let e = ApiClientError::from_transport_error(err);
        assert_eq!(e.status(), status);
        assert_eq!(e.raw_code(), None);
        assert_eq!(e.message(), Some(message));
    }
    assert_eq!(TransportError::Timeout.to_string(), "Timeout error");
    assert_eq!(TransportError::Other("o".to_string()).to_string(), "Other error: o");
}

#[test]
fn app_store_error_codes_round_trip() {
    assert_eq!(ApiErrorCode::from_code(4000006), ApiErrorCode::InvalidTransactionId);
    assert_eq!(ApiErrorCode::InvalidTransactionId.code(), 4000006);
    assert_eq!(ApiErrorCode::from_code(4000000), ApiErrorCode::GeneralBadRequest);
    assert_eq!(ApiErrorCode::from_code(123), ApiErrorCode::Unknown);
    assert_eq!(ApiErrorCode::Unknown.code(), -1);
    assert_eq!(ApiErrorCode::from_code(ApiErrorCode::InvalidProductId.code()), ApiErrorCode::InvalidProductId);
}

#[test]
fn app_store_client_error_catalogues_the_raw_code() {
    let e = AppStoreServerApiClientError::from(ApiClientError::new(400, Some(4000006), Some("m".to_string())));
    assert_eq!(e.api_error(), ApiErrorCode::InvalidTransactionId);
    assert_eq!(e.status(), 400);
    assert_eq!(e.raw_code(), Some(4000006));
    assert_eq!(e.message(), Some("m"));
    assert_eq!(e.inner().status(), 400);
    let e = AppStoreServerApiClientError::from(ApiClientError::new(500, None, None));
    assert_eq!(e.api_error(), ApiErrorCode::Unknown);
}

#[test]
fn advanced_commerce_error_codes_round_trip() {
    assert_eq!(AdvancedCommerceErrorCode::from_code(4030021), AdvancedCommerceErrorCode::AlreadyRefunded);
    assert_eq!(AdvancedCommerceErrorCode::AlreadyRefunded.code(), 4030021);
    assert_eq!(AdvancedCommerceErrorCode::from_code(7), AdvancedCommerceErrorCode::Unknown);
    let e = AdvancedCommerceApiClientError::from(ApiClientError::new(403, Some(4030021), None));
    assert_eq!(e.api_error(), AdvancedCommerceErrorCode::AlreadyRefunded);
    assert_eq!(e.raw_code(), Some(4030021));
}

#[test]
fn advanced_commerce_api_messages() {
    assert_eq!(APIErrorCode::AlreadyRefunded.code(), 4030021);
    assert_eq!(APIErrorCode::AlreadyRefunded.message(), "The transaction was already refunded.");
    assert_eq!(APIErrorCode::GeneralInternal.message(), "An unknown error occurred.");
}

#[test]
fn retention_messaging_error_codes() {
    assert_eq!(RetentionErrorCode::InvalidProductId.code(), 4000023);
    assert_eq!(RetentionErrorCode::RateLimitExceeded.code(), 4290000);
    assert_eq!(RetentionErrorCode::unknown().code(), -1);
}

#[test]
fn transaction_history_versions() {
    assert_eq!(GetTransactionHistoryVersion::V1.as_str(), "v1");
    assert_eq!(GetTransactionHistoryVersion::V2.as_str(), "v2");
}

#[test]
fn client_errors_render_with_the_catalogued_name() {
    let e = AppStoreServerApiClientError::from(ApiClientError::new(400, Some(4000006), Some("m".to_string())));
    assert_eq!(
        e.to_string(),
        "APIException: HTTP Status Code 400, Raw API Error: 4000006, Error Message: m, API Error: InvalidTransactionId"
    );
    let e = AdvancedCommerceApiClientError::from(ApiClientError::new(500, None, None));
    assert_eq!(e.to_string(), "APIException: HTTP Status Code 500, API Error: Unknown");
    assert_eq!(ApiErrorCode::GeneralBadRequest.name(), format!("{:?}", ApiErrorCode::GeneralBadRequest));
}

#[test]
fn client_failures_map_to_transport_errors() {
    assert!(matches!(TransportError::from_client_error(ClientErrorKind::Timeout, "t"), TransportError::Timeout));
    assert_eq!(
        TransportError::from_client_error(ClientErrorKind::Connect, "refused").to_string(),
        "Network error: Connection failed: refused"
    );
    assert_eq!(
        TransportError::from_client_error(ClientErrorKind::Request, "bad").to_string(),
        "Request failed: Request error: bad"
    );
    assert_eq!(TransportError::from_client_error(ClientErrorKind::Other, "x").to_string(), "Other error: x");
}
