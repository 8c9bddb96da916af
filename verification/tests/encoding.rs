use veto_frontier::clock::Timestamp;
use veto_frontier::crypto::hex::encode;
use veto_frontier::crypto::receipts::ReceiptData;
use veto_frontier::db::models::ReceiptOperation;
use veto_frontier::ident::Uuid;
use veto_frontier::json::to_json_string;
use veto_frontier::metadata::{key_order, KeyOrder, Metadata};

fn sample_id() -> Uuid {
    Uuid::from_bytes([
        0x93, 0x6d, 0xa0, 0x1f, 0x9a, 0xbd, 0x4d, 0x9d, 0x80, 0xc7, 0x02, 0xaf, 0x85, 0xc8, 0x22,
        0xa8,
    ])
}

#[test]
fn hex_encode_is_lowercase_two_digits_per_byte() {
    assert_eq!(encode(&[0xde, 0xad, 0xbe, 0xef, 0x00, 0x0f]), "deadbeef000f");
    assert_eq!(encode(&[]), "");
}

#[test]
fn uuid_text_is_hyphenated_lowercase() {
    assert_eq!(sample_id().to_hyphenated(), "936da01f-9abd-4d9d-80c7-02af85c822a8");
    assert_eq!(Uuid::nil().to_hyphenated(), "00000000-0000-0000-0000-000000000000");
    let theirs = uuid::Uuid::from_bytes(*sample_id().as_bytes());
    assert_eq!(sample_id().to_hyphenated(), theirs.to_string());
}

#[test]
fn uuid_same_compares_bytes() {
    assert!(sample_id().same(&sample_id()));
    assert!(!sample_id().same(&Uuid::nil()));
}

#[test]
fn timestamp_text_is_rfc3339_utc_with_offset() {
    let t = Timestamp::from_unix(1_700_000_000, 123_456_789).unwrap();
    assert_eq!(t.to_rfc3339(), "2023-11-14T22:13:20.123456789+00:00");
    assert_eq!(t.unix_seconds(), 1_700_000_000);
    assert_eq!(t.subsec_nanos(), 123_456_789);
    let whole = Timestamp::from_unix(0, 0).unwrap();
    assert_eq!(whole.to_rfc3339(), "1970-01-01T00:00:00+00:00");
}

#[test]
fn timestamp_out_of_range_is_rejected() {
    assert!(Timestamp::from_unix(i64::MAX, 0).is_none());
    assert!(Timestamp::from_unix(0, 2_000_000_000).is_none());
}

#[test]
fn timestamp_now_roundtrips() {
    let t = Timestamp::now();
    let again = Timestamp::from_unix(t.unix_seconds(), t.subsec_nanos()).unwrap();
    assert_eq!(t, again);
    assert!(Timestamp::from_unix(0, 0).unwrap().not_after(&t));
    assert!(!t.not_after(&Timestamp::from_unix(0, 0).unwrap()));
}

#[test]
fn json_string_escapes_like_serde_json() {
    let cases = [
        "",
        "plain",
        "quote\" and backslash\\",
        "line\nfeed\rreturn\ttab",
        "\u{8}\u{c}",
        "\u{0}\u{1}\u{1f}\u{7f}",
        "slash/ and unicode é ✓ 𝄞",
    ];
    for case in cases {
        assert_eq!(to_json_string(case), serde_json::to_string(case).unwrap());
    }
    assert_eq!(to_json_string("a\"b"), "\"a\\\"b\"");
    assert_eq!(to_json_string("\u{1}"), "\"\\u0001\"");
}

#[test]
fn key_order_is_bytewise() {
    assert_eq!(key_order("a", "b"), KeyOrder::Before);
    assert_eq!(key_order("b", "a"), KeyOrder::After);
    assert_eq!(key_order("ab", "ab"), KeyOrder::Same);
    assert_eq!(key_order("a", "ab"), KeyOrder::Before);
    assert_eq!(key_order("", "a"), KeyOrder::Before);
    assert_eq!(key_order("Z", "a"), KeyOrder::Before);
    assert_eq!(key_order("é", "z"), KeyOrder::After);
}

#[test]
fn metadata_text_is_sorted_and_compact() {
    let mut m = Metadata::new();
    assert_eq!(m.to_json(), "{}");
    m.insert("reason", Some("consent_revoked"));
    m.insert("orphaned_at", None);
    m.insert("a\"b", Some("x"));
    assert_eq!(m.len(), 3);
    assert_eq!(
        m.to_json(),
        "{\"a\\\"b\":\"x\",\"orphaned_at\":null,\"reason\":\"consent_revoked\"}"
    );
    m.insert("reason", Some("other"));
    assert_eq!(m.len(), 3);
    assert_eq!(m.to_json(), "{\"a\\\"b\":\"x\",\"orphaned_at\":null,\"reason\":\"other\"}");
}

#[test]
fn metadata_text_ignores_insertion_order() {
    let mut a = Metadata::new();
    a.insert("x", Some("1"));
    a.insert("y", None);
    a.insert("b", Some("2"));
    let mut b = Metadata::new();
    b.insert("b", Some("2"));
    b.insert("y", None);
    b.insert("x", Some("1"));
    assert_eq!(a.to_json(), b.to_json());
    assert_eq!(a, b);
}

#[test]
fn metadata_text_matches_serde_json() {
    let mut m = Metadata::new();
    m.insert("zeta", Some("last"));
    m.insert("alpha", Some("first\n"));
    m.insert("mid", None);
    let mut theirs = serde_json::Map::new();
    theirs.insert("zeta".to_string(), serde_json::Value::String("last".to_string()));
    theirs.insert("alpha".to_string(), serde_json::Value::String("first\n".to_string()));
    theirs.insert("mid".to_string(), serde_json::Value::Null);
    assert_eq!(m.to_json(), serde_json::to_string(&serde_json::Value::Object(theirs)).unwrap());
}

#[test]
fn canonical_json_has_fixed_member_order() {
    let mut metadata = Metadata::new();
    metadata.insert("content_hash", Some("abc"));
    let receipt = ReceiptData::at(
        sample_id(),
        ReceiptOperation::Create,
        Timestamp::from_unix(1_700_000_000, 0).unwrap(),
        "user_123".to_string(),
        None,
        metadata,
    );
    assert_eq!(
        receipt.to_canonical_json(),
        "{\"metadata\":{\"content_hash\":\"abc\"},\"operation\":\"create\",\
         \"pointer_id\":\"936da01f-9abd-4d9d-80c7-02af85c822a8\",\"prev_hash\":null,\
         \"subject_id\":\"user_123\",\"timestamp\":\"2023-11-14T22:13:20+00:00\"}"
    );
}

#[test]
fn canonical_json_matches_serde_json() {
    let mut metadata = Metadata::new();
    metadata.insert("data_id", Some("d-1"));
    let time = Timestamp::from_unix(1_700_000_000, 5_000_000).unwrap();
    let receipt = ReceiptData::at(
        sample_id(),
        ReceiptOperation::Resolve,
        time.clone(),
        "user \"quoted\"".to_string(),
        Some("ab12".to_string()),
        metadata,
    );
    let mut inner = serde_json::Map::new();
    inner.insert("data_id".to_string(), serde_json::Value::String("d-1".to_string()));
    let mut doc = serde_json::Map::new();
    doc.insert("timestamp".to_string(), serde_json::Value::String(time.to_rfc3339()));
    doc.insert("metadata".to_string(), serde_json::Value::Object(inner));
    doc.insert("operation".to_string(), serde_json::Value::String("resolve".to_string()));
    doc.insert(
        "pointer_id".to_string(),
        serde_json::Value::String("936da01f-9abd-4d9d-80c7-02af85c822a8".to_string()),
    );
    doc.insert("prev_hash".to_string(), serde_json::Value::String("ab12".to_string()));
    doc.insert("subject_id".to_string(), serde_json::Value::String("user \"quoted\"".to_string()));
    let theirs = serde_json::to_string(&serde_json::Value::Object(doc)).unwrap();
    assert_eq!(receipt.to_canonical_json(), theirs);
}
