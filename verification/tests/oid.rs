use app_store_server_library::crypto::oid::{oid_to_der_bytes, parse_decimal_u64};

#[test]
fn dotted_oid_converts_to_der_bytes() {
    // 1.2.840.113635.100.6.11.1 — Apple's receipt-signing OID.
    let expected: &[u8] = &[0x2A, 0x86, 0x48, 0x86, 0xF7, 0x63, 0x64, 0x06, 0x0B, 0x01];
    assert_eq!(oid_to_der_bytes("1.2.840.113635.100.6.11.1").unwrap(), expected);

    // 1.2.840.113635.100.6.2.1 — Apple's WWDR intermediate OID.
    let expected: &[u8] = &[0x2A, 0x86, 0x48, 0x86, 0xF7, 0x63, 0x64, 0x06, 0x02, 0x01];
    assert_eq!(oid_to_der_bytes("1.2.840.113635.100.6.2.1").unwrap(), expected);
}

#[test]
fn short_and_malformed_oids() {
    assert_eq!(oid_to_der_bytes("1"), None);
    assert_eq!(oid_to_der_bytes("1.x"), None);
    assert_eq!(oid_to_der_bytes("2.5.29.14").unwrap(), vec![0x55, 0x1D, 0x0E]);
    assert_eq!(oid_to_der_bytes("1.3.6.1.5.5.7.48.1").unwrap(), vec![0x2B, 0x06, 0x01, 0x05, 0x05, 0x07, 0x30, 0x01]);
}

#[test]
fn a_large_first_subidentifier_is_written_base_128() {
    // 2 * 40 + 100 = 180 takes two octets.
    assert_eq!(oid_to_der_bytes("2.100.3"), Some(vec![0x81, 0x34, 0x03]));
    assert_eq!(oid_to_der_bytes("2.999.3"), Some(vec![0x88, 0x37, 0x03]));
    assert_eq!(oid_to_der_bytes("1.2.x"), None);
}

#[test]
fn decimal_arcs_parse_like_u64_from_str() {
    assert_eq!(parse_decimal_u64("0"), Some(0));
    assert_eq!(parse_decimal_u64("18446744073709551615"), Some(u64::MAX));
    assert_eq!(parse_decimal_u64("18446744073709551616"), None);
    assert_eq!(parse_decimal_u64(""), None);
    assert_eq!(parse_decimal_u64("12a"), None);
    assert_eq!(parse_decimal_u64("+7"), Some(7));
}
