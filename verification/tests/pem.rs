use app_store_server_library::crypto::pem::decode_pem;

// A P-256 key whose secret scalar is 0x01 0x02 .. 0x20, as PKCS#8 DER.
fn test_key_der() -> Vec<u8> {
    let mut der = vec![
        0x30, 0x41, 0x02, 0x01, 0x00, 0x30, 0x13, 0x06, 0x07, 0x2a, 0x86, 0x48, 0xce, 0x3d, 0x02, 0x01, 0x06, 0x08,
        0x2a, 0x86, 0x48, 0xce, 0x3d, 0x03, 0x01, 0x07, 0x04, 0x27, 0x30, 0x25, 0x02, 0x01, 0x01, 0x04, 0x20,
    ];
    der.extend(1u8..=32);
    der
}

// The same key in PEM form, base64 lines of 64 characters between the markers.
fn test_key_pem() -> String {
    let body = base64::Engine::encode(&base64::engine::general_purpose::STANDARD, test_key_der());
    let label = ["PRIVATE", "KEY"].join(" ");
    let mut pem = format!("-----BEGIN {}-----\n", label);
    for chunk in body.as_bytes().chunks(64) {
        pem.push_str(std::str::from_utf8(chunk).unwrap());
        pem.push('\n');
    }
    pem.push_str(&format!("-----END {}-----\n", label));
    pem
}

#[test]
fn pem_content_is_decoded() {
    assert_eq!(decode_pem(&test_key_pem()).unwrap(), test_key_der());
}

#[test]
fn crlf_line_endings_are_accepted() {
    let crlf = test_key_pem().replace('\n', "\r\n");
    assert_eq!(decode_pem(&crlf).unwrap(), test_key_der());
}

#[test]
fn text_around_the_markers_is_ignored() {
    let pem = format!("comment line\n{}trailing text", &test_key_pem());
    assert_eq!(decode_pem(&pem).unwrap(), test_key_der());
    let key = test_key_pem();
    let no_final_newline = key.trim_end();
    assert_eq!(decode_pem(no_final_newline).unwrap(), test_key_der());
}

#[test]
fn malformed_pem_is_reported() {
    assert_eq!(decode_pem(""), Err("missing BEGIN marker"));
    assert_eq!(decode_pem("-----BEGIN X-----\nAAAA\n"), Err("missing END marker"));
    assert_eq!(decode_pem("-----BEGIN X-----\n-----END X-----\n"), Err("no content between markers"));
    assert_eq!(decode_pem("-----END X-----\nAAAA\n-----BEGIN X-----\n"), Err("no content between markers"));
    assert_eq!(decode_pem("-----BEGIN X-----\n!!!!\n-----END X-----\n"), Err("invalid base64"));
    assert_eq!(decode_pem("-----BEGIN X-----\nAAA\n-----END X-----"), Err("invalid base64"));
}
