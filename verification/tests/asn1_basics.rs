use app_store_server_library::asn1::asn1_basics::{
    find_end_of_contents, get_content, read_bit_string, read_context_specific_0, read_integer,
    read_octet_string, read_oid, read_sequence, read_set, read_tlv, read_utf8_string, skip,
    ASN1Error,
};
#[test]
fn test_read_tlv_short_form() {
    let data = vec![0x02, 0x03, 0x01, 0x02, 0x03];
    let (tag, length, offset) = read_tlv(&data, 0).unwrap();
    assert_eq!(tag, 0x02);
    assert_eq!(length, 3);
    assert_eq!(offset, 2);
}

#[test]
fn test_read_tlv_long_form_single_octet() {
    let data = vec![0x02, 0x81, 0x80, /* 128 bytes of content */];
    let (tag, length, offset) = read_tlv(&data, 0).unwrap();
    assert_eq!(tag, 0x02);
    assert_eq!(length, 0x80);
    assert_eq!(offset, 3);
}

#[test]
fn test_read_tlv_long_form_two_octets() {
    let data = vec![0x02, 0x82, 0x01, 0x00, /* 256 bytes of content */];
    let (tag, length, offset) = read_tlv(&data, 0).unwrap();
    assert_eq!(tag, 0x02);
    assert_eq!(length, 0x0100);
    assert_eq!(offset, 4);
}

#[test]
fn test_read_tlv_indefinite_length() {
    let data = vec![0x02, 0x80, /* content */];
    let (tag, length, offset) = read_tlv(&data, 0).unwrap();
    assert_eq!(tag, 0x02);
    assert_eq!(length, usize::MAX);
    assert_eq!(offset, 2);
}

#[test]
fn test_read_tlv_offset_out_of_bounds() {
    let data = vec![0x02, 0x03, 0x01, 0x02, 0x03];
    let result = read_tlv(&data, 10);
    assert!(result.is_err());
    assert_eq!(result.unwrap_err(), ASN1Error::ASN1DecodeError("Unexpected end of data".to_string()));
}

#[test]
fn test_read_tlv_incomplete_data() {
    let data = vec![0x02];
    let result = read_tlv(&data, 0);
    assert!(result.is_err());
    assert_eq!(result.unwrap_err(), ASN1Error::ASN1DecodeError("Unexpected end of data".to_string()));
}

#[test]
fn test_read_tlv_invalid_long_form() {
    let data = vec![0x02, 0x82, 0x01]; // Missing second length octet
    let result = read_tlv(&data, 0);
    assert!(result.is_err());
    assert_eq!(result.unwrap_err(), ASN1Error::ASN1DecodeError("Invalid length encoding".to_string()));
}

#[test]
fn test_read_integer_small_value() {
    let data = vec![0x02, 0x01, 0x05];
    let result = read_integer(&data, 0).unwrap();
    assert_eq!(result, 5);
}

#[test]
fn test_read_integer_zero_length() {
    let data = vec![0x02, 0x00];
    let result = read_integer(&data, 0).unwrap();
    assert_eq!(result, 0);
}

#[test]
fn test_read_integer_multi_byte() {
    let data = vec![0x02, 0x02, 0x01, 0x00];
    let result = read_integer(&data, 0).unwrap();
    assert_eq!(result, 256);
}

#[test]
fn test_read_integer_max_u64_bytes() {
    let data = vec![0x02, 0x08, 0xFF, 0xFF, 0xFF, 0xFF, 0xFF, 0xFF, 0xFF, 0xFF];
    let result = read_integer(&data, 0).unwrap();
    assert_eq!(result, u64::MAX);
}

#[test]
fn test_read_integer_wrong_tag() {
    let data = vec![0x03, 0x01, 0x05]; // Wrong tag (BIT STRING instead of INTEGER)
    let result = read_integer(&data, 0);
    assert!(result.is_err());
    assert_eq!(result.unwrap_err(), ASN1Error::ASN1DecodeError("Expected INTEGER".to_string()));
}

#[test]
fn test_read_integer_too_large() {
    let data = vec![0x02, 0x09, 0x01, 0x00, 0x00, 0x00, 0x00, 0x00, 0x00, 0x00, 0x00];
    let result = read_integer(&data, 0);
    assert!(result.is_err());
    assert_eq!(result.unwrap_err(), ASN1Error::ASN1DecodeError("Integer too large for u64".to_string()));
}

#[test]
fn test_find_end_of_contents_simple() {
    let data = vec![
        0x30, 0x80, // SEQUENCE with indefinite length
        0x02, 0x01, 0x05, // INTEGER 5
        0x00, 0x00, // End-of-contents
    ];
    let result = find_end_of_contents(&data, 2).unwrap();
    assert_eq!(result, 7);
}

#[test]
fn test_find_end_of_contents_nested() {
    let data = vec![
        0x30, 0x80, // Outer SEQUENCE with indefinite length
        0x30, 0x80, // Inner SEQUENCE with indefinite length
        0x02, 0x01, 0x05, // INTEGER 5
        0x00, 0x00, // End-of-contents for inner
        0x00, 0x00, // End-of-contents for outer
    ];
    let result = find_end_of_contents(&data, 2).unwrap();
    assert_eq!(result, 11);
}

#[test]
fn test_find_end_of_contents_mixed_lengths() {
    let data = vec![
        0x30, 0x80, // SEQUENCE with indefinite length
        0x02, 0x01, 0x05, // INTEGER 5 (definite length)
        0x30, 0x03, 0x02, 0x01, 0x06, // SEQUENCE with definite length containing INTEGER 6
        0x00, 0x00, // End-of-contents
    ];
    let result = find_end_of_contents(&data, 2).unwrap();
    assert_eq!(result, 12);
}

#[test]
fn test_find_end_of_contents_missing_marker() {
    let data = vec![
        0x30, 0x80, // SEQUENCE with indefinite length
        0x02, 0x01, 0x05, // INTEGER 5
        // Missing end-of-contents marker
    ];
    let result = find_end_of_contents(&data, 2);
    assert!(result.is_err());
    assert_eq!(result.unwrap_err(), ASN1Error::ASN1DecodeError("Missing end-of-contents marker".to_string()));
}

#[test]
fn test_asn1_error_display() {
    let error = ASN1Error::ASN1DecodeError("Test error".to_string());
    assert_eq!(error.to_string(), "ASN1DecodeError: [Test error]");
}

#[test]
fn test_skip() {
    let data = vec![0x02, 0x03, 0x01, 0x02, 0x03, 0x04, 0x01, 0x05];
    let next_offset = skip(&data, 0).unwrap();
    assert_eq!(next_offset, 5);
    
    // Verify we can read the next element
    let (tag, length, _) = read_tlv(&data, next_offset).unwrap();
    assert_eq!(tag, 0x04);
    assert_eq!(length, 1);
}

#[test]
fn test_skip_indefinite_length() {
    let data = vec![
        0x30, 0x80, // SEQUENCE with indefinite length
        0x02, 0x01, 0x05, // INTEGER 5
        0x00, 0x00, // End-of-contents
        0x04, 0x01, 0x06, // OCTET STRING
    ];
    let next_offset = skip(&data, 0).unwrap();
    assert_eq!(next_offset, 7);
    
    // Verify we can read the next element
    let (tag, _, _) = read_tlv(&data, next_offset).unwrap();
    assert_eq!(tag, 0x04);
}

#[test]
fn test_read_sequence() {
    let data = vec![0x30, 0x03, 0x02, 0x01, 0x05];
    let (content_offset, length) = read_sequence(&data, 0).unwrap();
    assert_eq!(content_offset, 2);
    assert_eq!(length, 3);
}

#[test]
fn test_read_sequence_wrong_tag() {
    let data = vec![0x31, 0x03, 0x02, 0x01, 0x05]; // SET instead of SEQUENCE
    let result = read_sequence(&data, 0);
    assert!(result.is_err());
}

#[test]
fn test_read_set() {
    let data = vec![0x31, 0x03, 0x02, 0x01, 0x05];
    let (content_offset, length) = read_set(&data, 0).unwrap();
    assert_eq!(content_offset, 2);
    assert_eq!(length, 3);
}

#[test]
fn test_read_octet_string() {
    let data = vec![0x04, 0x05, 0x48, 0x65, 0x6c, 0x6c, 0x6f]; // "Hello"
    let (content_offset, length) = read_octet_string(&data, 0).unwrap();
    assert_eq!(content_offset, 2);
    assert_eq!(length, 5);
}

#[test]
fn test_read_bit_string() {
    let data = vec![0x03, 0x02, 0x00, 0xFF];
    let (content_offset, length) = read_bit_string(&data, 0).unwrap();
    assert_eq!(content_offset, 2);
    assert_eq!(length, 2);
}

#[test]
fn test_read_bit_string_context_specific() {
    let data = vec![0x24, 0x80]; // Context-specific constructed 4 with indefinite length
    let (content_offset, length) = read_bit_string(&data, 0).unwrap();
    assert_eq!(content_offset, 2);
    assert_eq!(length, usize::MAX);
}

#[test]
fn test_read_oid() {
    let data = vec![0x06, 0x09, 0x2A, 0x86, 0x48, 0x86, 0xF7, 0x0D, 0x01, 0x07, 0x02];
    let (content_offset, length) = read_oid(&data, 0).unwrap();
    assert_eq!(content_offset, 2);
    assert_eq!(length, 9);
}

#[test]
fn test_read_context_specific_0() {
    let data = vec![0xA0, 0x03, 0x02, 0x01, 0x05];
    let (content_offset, length) = read_context_specific_0(&data, 0).unwrap();
    assert_eq!(content_offset, 2);
    assert_eq!(length, 3);
}

#[test]
fn test_read_utf8_string() {
    let data = vec![0x0C, 0x05, 0x48, 0x65, 0x6c, 0x6c, 0x6f]; // "Hello"
    let result = read_utf8_string(&data, 0).unwrap();
    assert_eq!(result, "Hello");
}

#[test]
fn test_read_utf8_string_invalid_utf8() {
    let data = vec![0x0C, 0x02, 0xFF, 0xFE]; // Invalid UTF-8
    let result = read_utf8_string(&data, 0);
    assert!(result.is_err());
}

#[test]
fn test_get_content_definite_length() {
    let data = vec![0x04, 0x05, 0x48, 0x65, 0x6c, 0x6c, 0x6f]; // OCTET STRING "Hello"
    let (_, length, content_offset) = read_tlv(&data, 0).unwrap();
    let content = get_content(&data, content_offset, length).unwrap();
    assert_eq!(content, b"Hello");
}

#[test]
fn test_get_content_indefinite_length() {
    let data = vec![
        0x24, 0x80, // BIT STRING with indefinite length
        0x04, 0x05, 0x48, 0x65, 0x6c, 0x6c, 0x6f, // OCTET STRING "Hello"
        0x00, 0x00, // End-of-contents
    ];
    let (_, length, content_offset) = read_tlv(&data, 0).unwrap();
    let content = get_content(&data, content_offset, length).unwrap();
    assert_eq!(content, &data[2..9]);
}
