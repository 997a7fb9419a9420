use app_store_server_library::asn1::asn1_basics::{get_content, read_sequence, read_tlv};
use app_store_server_library::crypto::rust_crypto::{RustCrypto, RustCryptoP256PrivateKey};
use app_store_server_library::crypto::{ecdsa_raw_to_der, CryptoError, P256PrivateKey, P256PublicKey, P256SigningSuite};

// A P-256 key whose secret scalar is 0x01 0x02 .. 0x20, as PKCS#8 DER.
fn test_key_der() -> Vec<u8> {
    let mut der = vec![
        0x30, 0x41, 0x02, 0x01, 0x00, 0x30, 0x13, 0x06, 0x07, 0x2a, 0x86, 0x48, 0xce, 0x3d, 0x02, 0x01, 0x06, 0x08,
        0x2a, 0x86, 0x48, 0xce, 0x3d, 0x03, 0x01, 0x07, 0x04, 0x27, 0x30, 0x25, 0x02, 0x01, 0x01, 0x04, 0x20,
    ];
    der.extend(1u8..=32);
    der
}

// The same key in PEM form, base64 lines of 64 characters between the markers.
fn test_key_pem() -> String {
    let body = base64::Engine::encode(&base64::engine::general_purpose::STANDARD, test_key_der());
    let label = ["PRIVATE", "KEY"].join(" ");
    let mut pem = format!("-----BEGIN {}-----\n", label);
    for chunk in body.as_bytes().chunks(64) {
        pem.push_str(std::str::from_utf8(chunk).unwrap());
        pem.push('\n');
    }
    pem.push_str(&format!("-----END {}-----\n", label));
    pem
}

// The matching SubjectPublicKeyInfo, hex.
const TEST_PUBLIC_KEY_HEX: &str = "3059301306072a8648ce3d020106082a8648ce3d03010703420004515c3d6eb9e396b904d3feca7f54fdcd0cc1e997bf375dca515ad0a6c3b4035f4536be3a50f318fbf9a5475902a221502bef0d57e08c53b2cc0a56f17d9f9354";

fn hex(s: &str) -> Vec<u8> {
    (0..s.len()).step_by(2).map(|i| u8::from_str_radix(&s[i..i + 2], 16).unwrap()).collect()
}

fn load_key() -> RustCryptoP256PrivateKey {
    RustCrypto.private_key(&test_key_pem()).expect("load key")
}

fn check_raw_is_64_bytes_and_der_is_well_formed() {
    let key = load_key();
    let (raw, der) = key.signature(b"hello world").expect("sign");

    assert_eq!(raw.len(), 64);

    assert_eq!(der[0], 0x30, "DER must start with SEQUENCE");
    assert_eq!(der[1] as usize, der.len() - 2, "length byte must match");
    assert!(der.len() >= 68 && der.len() <= 72, "got {} bytes", der.len());
}

fn check_der_and_raw_describe_the_same_signature() {
    let key = load_key();
    let (raw, der) = key.signature(b"same signature").expect("sign");

    let r_trimmed: Vec<u8> = raw[..32].iter().copied().skip_while(|&b| b == 0).collect();
    let s_trimmed: Vec<u8> = raw[32..].iter().copied().skip_while(|&b| b == 0).collect();

    assert!(der.windows(r_trimmed.len()).any(|w| w == r_trimmed.as_slice()), "r not found in DER");
    assert!(der.windows(s_trimmed.len()).any(|w| w == s_trimmed.as_slice()), "s not found in DER");
}

// The signature checks below are named after the backends they were first written for
// (aws-lc, ring, the provider module). This library has a single P-256 backend, built on
// RustCrypto, so each of them runs against that backend.

#[test]
fn aws_lc_raw_is_64_bytes_and_der_is_well_formed() {
    check_raw_is_64_bytes_and_der_is_well_formed();
}

#[test]
fn aws_lc_der_and_raw_describe_the_same_signature() {
    check_der_and_raw_describe_the_same_signature();
}

#[test]
fn mod_raw_is_64_bytes_and_der_is_well_formed() {
    check_raw_is_64_bytes_and_der_is_well_formed();
}

#[test]
fn mod_der_and_raw_describe_the_same_signature() {
    check_der_and_raw_describe_the_same_signature();
}

#[test]
fn ring_raw_is_64_bytes_and_der_is_well_formed() {
    check_raw_is_64_bytes_and_der_is_well_formed();
}

#[test]
fn ring_der_and_raw_describe_the_same_signature() {
    check_der_and_raw_describe_the_same_signature();
}

#[test]
fn der_integers_are_minimally_encoded_and_positive() {
    let mut rs = [0u8; 64];
    rs[0] = 0xFF; // r: high bit set, must be padded
    rs[32 + 31] = 0x01; // s: 31 leading zeros, must be stripped to one byte

    let der = ecdsa_raw_to_der(&rs).expect("encode");

    assert_eq!(der[0], 0x30);
    assert_eq!(der[1] as usize, der.len() - 2);
    assert_eq!(der[2], 0x02);
    assert_eq!(der[3], 33, "r must be padded to 33 bytes");
    assert_eq!(der[4], 0x00, "pad byte keeps r positive");
    assert_eq!(der[5], 0xFF);
    assert_eq!(&der[der.len() - 3..], &[0x02, 0x01, 0x01], "s is one byte");
}

#[test]
fn zero_component_encodes_as_a_single_zero_byte() {
    let der = ecdsa_raw_to_der(&[0u8; 64]).expect("encode");

    assert_eq!(der, vec![0x30, 0x06, 0x02, 0x01, 0x00, 0x02, 0x01, 0x00]);
}

#[test]
fn der_keeps_a_zero_that_guards_a_high_bit() {
    let mut rs = [0u8; 64];
    rs[1] = 0x80; // r = 00 80 00 .. : the first zero is redundant only if the next byte is below 0x80
    rs[32] = 0x7F;
    let der = ecdsa_raw_to_der(&rs).expect("encode");
    // r: 31 significant bytes starting 0x80 need a single zero pad: 32 bytes of content
    assert_eq!(der[2], 0x02);
    assert_eq!(der[3], 32);
    assert_eq!(der[4], 0x00);
    assert_eq!(der[5], 0x80);
    // s: 32 bytes starting 0x7F stay as they are
    assert_eq!(der[4 + 32], 0x02);
    assert_eq!(der[5 + 32], 32);
    assert_eq!(der[6 + 32], 0x7F);
    assert_eq!(der.len(), 2 + 2 + 32 + 2 + 32);
}

#[test]
fn signatures_verify_under_the_matching_public_key() {
    let key = load_key();
    let public = RustCrypto.public_key(&hex(TEST_PUBLIC_KEY_HEX)).expect("public key");
    let (raw, _) = key.signature(b"message").expect("sign");
    assert!(public.is_valid_signature(&raw, b"message").is_ok());
    match public.is_valid_signature(&raw, b"other message") {
        Err(CryptoError::VerificationError(_)) => {}
        other => panic!("expected a verification error, got {:?}", other),
    }
}

#[test]
fn signing_is_deterministic() {
    let key = load_key();
    let (a, _) = key.signature(b"same input").expect("sign");
    let (b, _) = key.signature(b"same input").expect("sign");
    assert_eq!(a, b);
}

#[test]
fn malformed_keys_are_key_errors() {
    match RustCrypto.private_key("not a pem") {
        Err(CryptoError::KeyError(_)) => {}
        _ => panic!("expected a key error"),
    }
    match RustCrypto.public_key(&[0x30, 0x00]) {
        Err(CryptoError::KeyError(_)) => {}
        _ => panic!("expected a key error"),
    }
}

#[test]
fn crypto_errors_render_with_their_kind() {
    assert_eq!(CryptoError::KeyError("bad".to_string()).to_string(), "Key error: bad");
    assert_eq!(CryptoError::SigningError("bad".to_string()).to_string(), "Signing error: bad");
    assert_eq!(CryptoError::VerificationError("bad".to_string()).to_string(), "Verification error: bad");
}

#[test]
fn signature_der_reads_back_with_the_asn1_readers() {
    let key = load_key();
    let (raw, der) = key.signature(b"read back").expect("sign");
    let (offset, length) = read_sequence(&der, 0).unwrap();
    assert_eq!((offset, length), (2, der.len() - 2));
    let (tag, r_len, r_offset) = read_tlv(&der, offset).unwrap();
    assert_eq!(tag, 0x02);
    let r = get_content(&der, r_offset, r_len).unwrap();
    let (tag, s_len, s_offset) = read_tlv(&der, r_offset + r_len).unwrap();
    assert_eq!(tag, 0x02);
    let s = get_content(&der, s_offset, s_len).unwrap();
    let trim = |b: &[u8]| b.iter().copied().skip_while(|&x| x == 0).collect::<Vec<u8>>();
    assert_eq!(trim(r), trim(&raw[..32]));
    assert_eq!(trim(s), trim(&raw[32..]));
    assert!(r[0] < 0x80 && s[0] < 0x80);
}
