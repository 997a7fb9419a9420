use app_store_server_library::crypto::jws::{
    b64url_decode, b64url_encode, decode_payload_bytes, decode_signature_bytes, encode_compact,
    signing_input, split, JwsError,
};

// A minimal ES256 JWS with a two-element x5c. Signature is not verified here.
const SAMPLE: &str = "eyJhbGciOiJFUzI1NiIsIng1YyI6WyJhYWEiLCJiYmIiXX0.eyJmb28iOiJiYXIifQ.c2ln";

#[test]
fn signing_input_is_first_two_segments() {
    assert_eq!(
        signing_input(SAMPLE).unwrap(),
        "eyJhbGciOiJFUzI1NiIsIng1YyI6WyJhYWEiLCJiYmIiXX0.eyJmb28iOiJiYXIifQ"
    );
}

#[test]
fn decodes_payload_bytes() {
    let payload = decode_payload_bytes(SAMPLE).unwrap();
    assert_eq!(payload, br#"{"foo":"bar"}"#);
}

#[test]
fn b64url_round_trips_without_padding() {
    // 0xFB 0xFF exercises the -_ alphabet; length 2 would need padding.
    let encoded = b64url_encode(&[0xFB, 0xFF]);
    assert!(!encoded.contains('='), "must be unpadded, got {encoded}");
    assert!(!encoded.contains('+') && !encoded.contains('/'));
    assert_eq!(b64url_decode(&encoded).unwrap(), vec![0xFB, 0xFF]);
}

#[test]
fn b64url_decode_accepts_unpadded_input() {
    assert_eq!(b64url_decode("YWJj").unwrap(), b"abc");
    assert_eq!(b64url_decode("YQ").unwrap(), b"a");
}

#[test]
fn encode_compact_joins_three_segments() {
    let token = encode_compact("aGRy", "cGF5", &[0x01, 0x02]);
    assert_eq!(token, "aGRy.cGF5.AQI");
    assert_eq!(token.split('.').count(), 3);
}

#[test]
fn split_rejects_wrong_segment_count() {
    assert_eq!(split("only.two"), Err(JwsError::InvalidFormat));
    assert_eq!(split("a.b.c.d"), Err(JwsError::InvalidFormat));
    assert_eq!(split(""), Err(JwsError::InvalidFormat));
    assert_eq!(split("a.b.c"), Ok(["a", "b", "c"]));
    assert_eq!(split(".."), Ok(["", "", ""]));
}

#[test]
fn split_keeps_multibyte_segments() {
    assert_eq!(split("é.ü.ß"), Ok(["é", "ü", "ß"]));
}

#[test]
fn b64url_decode_tolerates_padding() {
    assert_eq!(b64url_decode("YQ==").unwrap(), b"a");
    assert_eq!(b64url_decode("YWI=").unwrap(), b"ab");
}

#[test]
fn b64url_decode_rejects_invalid_text() {
    assert!(matches!(b64url_decode("!!!"), Err(JwsError::InvalidBase64(_))));
}

#[test]
fn decodes_signature_bytes() {
    assert_eq!(decode_signature_bytes(SAMPLE).unwrap(), b"sig");
    assert_eq!(decode_signature_bytes("a.b"), Err(JwsError::InvalidFormat));
}

#[test]
fn decode_payload_rejects_non_base64_payload() {
    assert!(matches!(
        decode_payload_bytes("aGRy.!!!.c2ln"),
        Err(JwsError::InvalidBase64(_))
    ));
}

#[test]
fn split_of_compact_token_gives_back_its_segments() {
    let token = encode_compact("aGRy", "cGF5", &[0xFB, 0xFF, 0x00]);
    let parts = split(&token).unwrap();
    assert_eq!(parts[0], "aGRy");
    assert_eq!(parts[1], "cGF5");
    assert_eq!(b64url_decode(parts[2]).unwrap(), vec![0xFB, 0xFF, 0x00]);
    assert_eq!(signing_input(&token).unwrap(), "aGRy.cGF5");
}

#[test]
fn jws_error_renders() {
    assert_eq!(JwsError::InvalidFormat.to_string(), "InvalidFormat");
    assert_eq!(JwsError::InvalidBase64("x".to_string()).to_string(), "InvalidBase64: [x]");
    assert_eq!(JwsError::InvalidJson("y".to_string()).to_string(), "InvalidJson: [y]");
}
