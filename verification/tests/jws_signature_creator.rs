use app_store_server_library::crypto::jws::{decode_payload_bytes, decode_signature_bytes, signing_input, split, b64url_decode};
use app_store_server_library::crypto::rust_crypto::RustCrypto;
use app_store_server_library::crypto::{CryptoError, P256PublicKey, P256SigningSuite};
use app_store_server_library::jws_signature_creator::{
    AdvancedCommerceInAppSignatureCreator, IntroductoryOfferEligibilitySignatureCreator, JWSSignatureCreatorError,
    PromotionalOfferV2SignatureCreator,
};

// A P-256 key whose secret scalar is 0x01 0x02 .. 0x20, as PKCS#8 DER.
fn test_key_der() -> Vec<u8> {
    let mut der = vec![
        0x30, 0x41, 0x02, 0x01, 0x00, 0x30, 0x13, 0x06, 0x07, 0x2a, 0x86, 0x48, 0xce, 0x3d, 0x02, 0x01, 0x06, 0x08,
        0x2a, 0x86, 0x48, 0xce, 0x3d, 0x03, 0x01, 0x07, 0x04, 0x27, 0x30, 0x25, 0x02, 0x01, 0x01, 0x04, 0x20,
    ];
    der.extend(1u8..=32);
    der
}

// The same key in PEM form, base64 lines of 64 characters between the markers.
fn test_key_pem() -> String {
    let body = base64::Engine::encode(&base64::engine::general_purpose::STANDARD, test_key_der());
    let label = ["PRIVATE", "KEY"].join(" ");
    let mut pem = format!("-----BEGIN {}-----\n", label);
    for chunk in body.as_bytes().chunks(64) {
        pem.push_str(std::str::from_utf8(chunk).unwrap());
        pem.push('\n');
    }
    pem.push_str(&format!("-----END {}-----\n", label));
    pem
}

const TEST_PUBLIC_KEY_HEX: &str = "3059301306072a8648ce3d020106082a8648ce3d03010703420004515c3d6eb9e396b904d3feca7f54fdcd0cc1e997bf375dca515ad0a6c3b4035f4536be3a50f318fbf9a5475902a221502bef0d57e08c53b2cc0a56f17d9f9354";

fn hex(s: &str) -> Vec<u8> {
    (0..s.len()).step_by(2).map(|i| u8::from_str_radix(&s[i..i + 2], 16).unwrap()).collect()
}

fn header_json(token: &str) -> String {
    let parts = split(token).unwrap();
    String::from_utf8(b64url_decode(parts[0]).unwrap()).unwrap()
}

fn payload_json(token: &str) -> String {
    String::from_utf8(decode_payload_bytes(token).unwrap()).unwrap()
}

fn assert_signed_by_test_key(token: &str) {
    let public = RustCrypto.public_key(&hex(TEST_PUBLIC_KEY_HEX)).unwrap();
    let sig = decode_signature_bytes(token).unwrap();
    assert_eq!(sig.len(), 64);
    let mut raw = [0u8; 64];
    raw.copy_from_slice(&sig);
    let input = signing_input(token).unwrap();
    assert!(public.is_valid_signature(&raw, input.as_bytes()).is_ok());
}

#[test]
fn promotional_offer_signature_has_header_payload_and_valid_signature() {
    let creator = PromotionalOfferV2SignatureCreator::new(
        &test_key_pem(),
        "L256SYR32L".to_string(),
        "issuerId".to_string(),
        "com.test.app".to_string(),
    )
    .expect("valid signing key");
    let token = creator
        .create_signature_at(
            "com.test.product",
            "com.test.offer",
            Some("transactionId".to_string()),
            "3db5c98d-8acf-4e29-831e-8e1f82f9f6e9".to_string(),
            1700000000,
        )
        .expect("signing succeeds");
    assert_eq!(header_json(&token), r#"{"alg":"ES256","kid":"L256SYR32L","typ":"JWT"}"#);
    assert_eq!(
        payload_json(&token),
        r#"{"nonce":"3db5c98d-8acf-4e29-831e-8e1f82f9f6e9","iss":"issuerId","bid":"com.test.app","aud":"promotional-offer","iat":1700000000,"productId":"com.test.product","offerIdentifier":"com.test.offer","transactionId":"transactionId"}"#
    );
    assert_signed_by_test_key(&token);
}

#[test]
fn promotional_offer_without_transaction_id_omits_it() {
    let creator = PromotionalOfferV2SignatureCreator::new(
        &test_key_pem(),
        "keyId".to_string(),
        "issuerId".to_string(),
        "bundleId".to_string(),
    )
    .unwrap();
    let token = creator.create_signature_at("productId", "offerId", None, "nonce".to_string(), -5).unwrap();
    assert_eq!(
        payload_json(&token),
        r#"{"nonce":"nonce","iss":"issuerId","bid":"bundleId","aud":"promotional-offer","iat":-5,"productId":"productId","offerIdentifier":"offerId"}"#
    );
}

#[test]
fn signatures_are_reproducible_for_the_same_nonce_and_time() {
    let creator = PromotionalOfferV2SignatureCreator::new(
        &test_key_pem(),
        "keyId".to_string(),
        "issuerId".to_string(),
        "bundleId".to_string(),
    )
    .unwrap();
    let a = creator.create_signature_at("p", "o", None, "n".to_string(), 1).unwrap();
    let b = creator.create_signature_at("p", "o", None, "n".to_string(), 1).unwrap();
    assert_eq!(a, b);
}

#[test]
fn fresh_signatures_carry_a_uuid_nonce() {
    let creator = PromotionalOfferV2SignatureCreator::new(
        &test_key_pem(),
        "keyId".to_string(),
        "issuerId".to_string(),
        "bundleId".to_string(),
    )
    .unwrap();
    let token = creator.create_signature("p", "o", None).unwrap();
    let payload = payload_json(&token);
    assert!(payload.starts_with(r#"{"nonce":""#));
    let nonce = &payload[10..46];
    assert_eq!(nonce.len(), 36);
    assert_eq!(nonce.matches('-').count(), 4);
    assert_signed_by_test_key(&token);
}

#[test]
fn strings_are_escaped_as_json() {
    let creator = PromotionalOfferV2SignatureCreator::new(
        &test_key_pem(),
        "k\"id".to_string(),
        "issuer\\".to_string(),
        "bundle\n".to_string(),
    )
    .unwrap();
    let token = creator.create_signature_at("p", "o", None, "n".to_string(), 0).unwrap();
    assert_eq!(header_json(&token), r#"{"alg":"ES256","kid":"k\"id","typ":"JWT"}"#);
    assert_eq!(
        payload_json(&token),
        r#"{"nonce":"n","iss":"issuer\\","bid":"bundle\n","aud":"promotional-offer","iat":0,"productId":"p","offerIdentifier":"o"}"#
    );
}

#[test]
fn introductory_offer_eligibility_payload() {
    let creator = IntroductoryOfferEligibilitySignatureCreator::new(
        &test_key_pem(),
        "keyId".to_string(),
        "issuerId".to_string(),
        "bundleId".to_string(),
    )
    .unwrap();
    let token = creator.create_signature_at("productId", true, "transactionId", "nonce".to_string(), 42).unwrap();
    assert_eq!(
        payload_json(&token),
        r#"{"nonce":"nonce","iss":"issuerId","bid":"bundleId","aud":"introductory-offer-eligibility","iat":42,"productId":"productId","allowIntroductoryOffer":true,"transactionId":"transactionId"}"#
    );
    assert_signed_by_test_key(&token);
    let token = creator.create_signature_at("productId", false, "t", "nonce".to_string(), 42).unwrap();
    assert!(payload_json(&token).contains(r#""allowIntroductoryOffer":false"#));
}

#[test]
fn advanced_commerce_payload_carries_the_request_in_standard_base64() {
    let creator = AdvancedCommerceInAppSignatureCreator::new(
        &test_key_pem(),
        "keyId".to_string(),
        "issuerId".to_string(),
        "bundleId".to_string(),
    )
    .unwrap();
    let token = creator.create_signature_at(br#"{"a":"b"}"#, "nonce".to_string(), 7).unwrap();
    assert_eq!(
        payload_json(&token),
        r#"{"nonce":"nonce","iss":"issuerId","bid":"bundleId","aud":"advanced-commerce-api","iat":7,"request":"eyJhIjoiYiJ9"}"#
    );
    assert_signed_by_test_key(&token);
    // "??>" encodes with '+' and '/' in the standard alphabet.
    let token = creator.create_signature_at(b"\xfb\xff\xbf", "nonce".to_string(), 7).unwrap();
    assert!(payload_json(&token).contains(r#""request":"+/+/""#));
}

#[test]
fn invalid_keys_are_rejected() {
    let r = PromotionalOfferV2SignatureCreator::new("nope", "k".to_string(), "i".to_string(), "b".to_string());
    assert!(matches!(r, Err(JWSSignatureCreatorError::InvalidPrivateKey)));
    let r = IntroductoryOfferEligibilitySignatureCreator::new("", "k".to_string(), "i".to_string(), "b".to_string());
    assert!(matches!(r, Err(JWSSignatureCreatorError::InvalidPrivateKey)));
    let r = AdvancedCommerceInAppSignatureCreator::new(
        &format!("-----BEGIN {0}-----\nAAAA\n-----END {0}-----\n", ["PRIVATE", "KEY"].join(" ")),
        "k".to_string(),
        "i".to_string(),
        "b".to_string(),
    );
    assert!(matches!(r, Err(JWSSignatureCreatorError::InvalidPrivateKey)));
}

#[test]
fn creator_errors_render() {
    assert_eq!(JWSSignatureCreatorError::InvalidPrivateKey.to_string(), "InvalidPrivateKey");
    assert_eq!(JWSSignatureCreatorError::SigningError("x".to_string()).to_string(), "SigningError: [x]");
    assert_eq!(
        JWSSignatureCreatorError::SerializationError("y".to_string()).to_string(),
        "SerializationError: [y]"
    );
}

#[test]
fn crypto_errors_convert_to_creator_errors() {
    assert_eq!(
        JWSSignatureCreatorError::from(CryptoError::KeyError("k".to_string())),
        JWSSignatureCreatorError::InvalidPrivateKey
    );
    assert_eq!(
        JWSSignatureCreatorError::from(CryptoError::SigningError("s".to_string())),
        JWSSignatureCreatorError::SigningError("s".to_string())
    );
    assert_eq!(
        JWSSignatureCreatorError::from(CryptoError::VerificationError("v".to_string())),
        JWSSignatureCreatorError::SigningError("v".to_string())
    );
}
