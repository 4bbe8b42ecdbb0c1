use mls_session::codec::{encoded, wire_bytes, wire_text};
use mls_session::error::{ErrorKind, MlsError};
use mls_session::text::{describe, render_commit_reply, render_decimal, render_group_info};

#[test]
fn wire_text_is_lowercase_hex_high_half_first() {
    assert_eq!(wire_text(&[0x00, 0xff, 0x1a, 0xa1]), "00ff1aa1");
    assert_eq!(wire_text(&[]), "");
    assert_eq!(wire_text(b"kiwi"), "6b697769");
}

#[test]
fn wire_bytes_reads_both_cases() {
    assert_eq!(wire_bytes("00FF1a", "decode").unwrap(), vec![0x00, 0xff, 0x1a]);
    assert_eq!(wire_bytes("f9B4Ca", "decode").unwrap(), vec![0xf9, 0xb4, 0xca]);
    assert_eq!(wire_bytes("", "decode").unwrap(), Vec::<u8>::new());
}

#[test]
fn wire_bytes_refuses_odd_length() {
    let e = wire_bytes("abc", "Failed to decode key package hex").unwrap_err();
    assert_eq!(e.kind(), ErrorKind::Serialization);
    assert_eq!(e.detail(), "Failed to decode key package hex: OddLength");
}

#[test]
fn wire_bytes_refuses_other_characters() {
    let e = wire_bytes("0g", "Failed to decode commit hex").unwrap_err();
    assert_eq!(e.kind(), ErrorKind::Serialization);
    assert!(e.detail().starts_with("Failed to decode commit hex: "));
    let e = wire_bytes("zz", "x").unwrap_err();
    assert!(matches!(e, MlsError::SerializationError { .. }));
    let e = wire_bytes("\u{e9}\u{e9}", "x").unwrap_err();
    assert_eq!(e.kind(), ErrorKind::Serialization);
}

#[test]
fn hex_round_trip_on_all_byte_values() {
    let all: Vec<u8> = (0u16..256).map(|b| b as u8).collect();
    let text = wire_text(&all);
    assert_eq!(text.len(), 512);
    assert!(text.bytes().all(|c| c.is_ascii_digit() || (b'a'..=b'f').contains(&c)));
    let back = wire_bytes(&text, "decode").unwrap();
    assert_eq!(back, all);
    assert_eq!(wire_text(&back), text);
}

#[test]
fn decimal_rendering() {
    assert_eq!(render_decimal(0), "0");
    assert_eq!(render_decimal(7), "7");
    assert_eq!(render_decimal(10), "10");
    assert_eq!(render_decimal(1234567890), "1234567890");
    assert_eq!(render_decimal(u64::MAX), "18446744073709551615");
}

#[test]
fn detail_joins_attempt_and_fault() {
    assert_eq!(describe("Failed to add member", "PendingCommit"), "Failed to add member: PendingCommit");
    assert_eq!(describe("", ""), ": ");
}

#[test]
fn group_info_reply_is_exact() {
    assert_eq!(
        render_group_info("00ab", 3, 2),
        "{\"group_id\":\"00ab\",\"epoch\":3,\"member_count\":2}"
    );
    assert_eq!(
        render_group_info("", 0, 0),
        "{\"group_id\":\"\",\"epoch\":0,\"member_count\":0}"
    );
}

#[test]
fn commit_reply_is_exact() {
    assert_eq!(
        render_commit_reply(&[0x01, 0x02], &[0xfe]),
        "{\"commit\":\"0102\",\"welcome\":\"fe\"}"
    );
}

#[test]
fn every_error_kind_renders_with_its_heading() {
    let e = MlsError::generic("boom".to_string());
    assert_eq!(e.kind(), ErrorKind::Generic);
    assert_eq!(e.message(), "Generic MLS error: boom");
    let e = MlsError::group_not_found("00ff");
    assert_eq!(e.kind(), ErrorKind::GroupNotFound);
    assert_eq!(e.detail(), "00ff");
    assert_eq!(e.message(), "Group not found: 00ff");
    let e = MlsError::crypto("bad key".to_string());
    assert_eq!(e.kind(), ErrorKind::Crypto);
    assert_eq!(e.message(), "Crypto error: bad key");
    let e = MlsError::io("disk".to_string());
    assert_eq!(e.kind(), ErrorKind::Io);
    assert_eq!(e.message(), "IO error: disk");
    let e = MlsError::serialization("hex".to_string());
    assert_eq!(e.kind(), ErrorKind::Serialization);
    assert_eq!(e.message(), "Serialization error: hex");
}

#[test]
fn report_and_of_kind_agree() {
    let e = MlsError::report(ErrorKind::Crypto, "Failed to validate key package", "InvalidSignature");
    assert_eq!(
        e,
        MlsError::CryptoError { msg: "Failed to validate key package: InvalidSignature".to_string() }
    );
    assert_eq!(
        MlsError::of_kind(ErrorKind::GroupNotFound, "ab".to_string()),
        MlsError::GroupNotFound { group_id: "ab".to_string() }
    );
    assert_eq!(
        MlsError::of_kind(ErrorKind::Io, "x".to_string()),
        MlsError::IoError { msg: "x".to_string() }
    );
}

#[test]
fn encoded_hands_out_text_or_a_serialization_failure() {
    assert_eq!(encoded(Ok(vec![0x01, 0xab, 0xff]), "Failed to serialize message").unwrap(), "01abff");
    assert_eq!(encoded(Ok(Vec::new()), "Failed to serialize message").unwrap(), "");
    let e = encoded(Err("EndOfStream".to_string()), "Failed to serialize commit").unwrap_err();
    assert_eq!(
        e,
        MlsError::SerializationError { msg: "Failed to serialize commit: EndOfStream".to_string() }
    );
}
