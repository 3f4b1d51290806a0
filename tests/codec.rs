use verity::{decode_v1, decode_v2, encode_v2, ErrorCode, SUBJECT_LEN, V1_HEADER_LEN, V2_HEADER_LEN};

fn subject_bytes(seed: u8) -> [u8; 32] {
    let mut s = [0u8; 32];
    for (i, b) in s.iter_mut().enumerate() {
        *b = seed.wrapping_add(i as u8);
    }
    s
}

#[test]
fn header_widths() {
    assert_eq!(SUBJECT_LEN, 32);
    assert_eq!(V1_HEADER_LEN, 40);
    assert_eq!(V2_HEADER_LEN, 44);
}

#[test]
fn v1_reads_subject_and_little_endian_expiration() {
    let subject = subject_bytes(7);
    let mut msg = subject.to_vec();
    msg.extend_from_slice(&1_700_000_000i64.to_le_bytes());
    msg.extend_from_slice(&[0xAA; 88]);
    let a = decode_v1(&msg).unwrap();
    assert_eq!(a.subject, subject);
    assert_eq!(a.expiration, 1_700_000_000);
    assert!(a.schema.is_none());
}

#[test]
fn v1_reads_negative_expiration() {
    let mut msg = vec![0u8; 32];
    msg.extend_from_slice(&(-2i64).to_le_bytes());
    assert_eq!(decode_v1(&msg).unwrap().expiration, -2);
}

#[test]
fn v1_too_short_is_malformed() {
    assert!(matches!(decode_v1(&[0u8; 39]), Err(ErrorCode::MalformedPayload)));
    assert!(matches!(decode_v1(&[]), Err(ErrorCode::MalformedPayload)));
}

#[test]
fn v2_matches_borsh_layout() {
    let subject = subject_bytes(3);
    let schema = "centre.io/credentials/kyc".to_string();
    let expected = borsh::to_vec(&(subject, 1_234_567_890i64, schema.clone())).unwrap();
    let encoded = encode_v2(&subject, 1_234_567_890, schema.as_bytes());
    assert_eq!(encoded, expected);
    assert_eq!(encoded.len(), 44 + 25);
    assert_eq!(&encoded[40..44], &[25, 0, 0, 0]);
}

#[test]
fn v2_round_trip() {
    let subject = subject_bytes(200);
    for (exp, schema) in [(0i64, ""), (i64::MAX, "héllo ✓"), (i64::MIN, "centre.io/credentials/kyc")] {
        let bytes = encode_v2(&subject, exp, schema.as_bytes());
        let a = decode_v2(&bytes).unwrap();
        assert_eq!(a.subject, subject);
        assert_eq!(a.expiration, exp);
        assert_eq!(a.schema.as_deref(), Some(schema.as_bytes()));
        let again = encode_v2(&a.subject, a.expiration, a.schema.as_ref().unwrap());
        assert_eq!(again, bytes);
    }
}

#[test]
fn v2_ignores_bytes_after_the_frame() {
    let subject = subject_bytes(1);
    let mut bytes = encode_v2(&subject, 99, b"abc");
    bytes.resize(128, 0);
    let a = decode_v2(&bytes).unwrap();
    assert_eq!(a.expiration, 99);
    assert_eq!(a.schema.unwrap(), b"abc".to_vec());
}

#[test]
fn v2_truncated_schema_is_malformed() {
    let subject = subject_bytes(1);
    let bytes = encode_v2(&subject, 99, b"abcdef");
    assert!(matches!(decode_v2(&bytes[..bytes.len() - 1]), Err(ErrorCode::MalformedPayload)));
    assert!(matches!(decode_v2(&bytes[..43]), Err(ErrorCode::MalformedPayload)));
}

#[test]
fn v2_huge_declared_length_is_malformed() {
    let mut bytes = vec![0u8; 40];
    bytes.extend_from_slice(&u32::MAX.to_le_bytes());
    bytes.extend_from_slice(b"abc");
    assert!(matches!(decode_v2(&bytes), Err(ErrorCode::MalformedPayload)));
}

#[test]
fn v2_invalid_utf8_is_malformed() {
    let subject = subject_bytes(1);
    let bytes = encode_v2(&subject, 5, &[0x66, 0xFF, 0x6F]);
    assert!(matches!(decode_v2(&bytes), Err(ErrorCode::MalformedPayload)));
    let overlong = encode_v2(&subject, 5, &[0xC0, 0x80]);
    assert!(matches!(decode_v2(&overlong), Err(ErrorCode::MalformedPayload)));
}
