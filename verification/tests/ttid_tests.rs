use std::time::{SystemTime, UNIX_EPOCH};

use short_uuid::ShortUuid;
use ttid::deser::{RANDOM_MASK, TIMESTAMP_MAX, TYPE_ID_MAX};
use ttid::domains::{MyType, NarrowType};
use ttid::{ParseTtidError, Ttid, TtidError};
use uuid::Uuid;

#[test]
fn roundtrip_parts() {
    let ts = 1_735_689_010_123u64;
    let rand = 0x0abc_def1_2345_6789u64 & RANDOM_MASK;
    let ttid = Ttid::<MyType>::from_parts(ts, MyType::Session, rand).unwrap();

    assert_eq!(ttid.timestamp_ms(), ts);
    assert_eq!(ttid.type_id(), 777);
    assert_eq!(ttid.id_type(), MyType::Session);
    assert_eq!(ttid.randomness(), rand);

    let uuid = ttid.as_uuid();
    let parsed = Ttid::<MyType>::from_uuid(uuid).unwrap();
    assert_eq!(parsed, ttid);
}

#[test]
fn accepts_max_timestamp_and_max_type() {
    let ttid = Ttid::<MyType>::from_parts(TIMESTAMP_MAX, MyType::Max, RANDOM_MASK).unwrap();

    assert_eq!(ttid.timestamp_ms(), TIMESTAMP_MAX);
    assert_eq!(ttid.type_id(), TYPE_ID_MAX);
    assert_eq!(ttid.randomness(), RANDOM_MASK);
}

#[test]
fn new_uses_current_time() {
    let before = SystemTime::now()
        .duration_since(UNIX_EPOCH)
        .unwrap()
        .as_millis() as u64;

    let ttid = Ttid::<MyType>::new(MyType::User).unwrap();

    let after = SystemTime::now()
        .duration_since(UNIX_EPOCH)
        .unwrap()
        .as_millis() as u64;

    assert!(ttid.timestamp_ms() >= before);
    assert!(ttid.timestamp_ms() <= after);
}

#[test]
fn display_and_parse_roundtrip() {
    let ttid = Ttid::<MyType>::from_parts(1_700_000_000_000, MyType::User, 42).unwrap();
    let rendered = ttid.to_text();

    assert!(rendered.starts_with("user_"));

    let parsed: Ttid<MyType> = Ttid::parse(&rendered).unwrap();
    assert_eq!(parsed, ttid);
}

#[test]
fn parse_rejects_missing_separator() {
    let err = Ttid::<MyType>::parse("user").unwrap_err();
    assert!(matches!(err, ParseTtidError::InvalidFormat));
}

#[test]
fn parse_rejects_unknown_type_name() {
    let uuid = Uuid::new_v4();
    let s = format!("does_not_exist_{}", ShortUuid::from_uuid(&uuid));

    let err = Ttid::<MyType>::parse(&s).unwrap_err();
    assert!(matches!(err, ParseTtidError::UnknownTypeName));
}

#[test]
fn parse_rejects_invalid_short_uuid() {
    let err = Ttid::<MyType>::parse("user_not-a-short-uuid").unwrap_err();
    assert!(matches!(err, ParseTtidError::InvalidShortUuid));
}

#[test]
fn parse_rejects_out_of_range_compact_text() {
    // 22 valid base58 digits denoting 2^128, one past the largest encodable
    // value: rejected, not accepted and not a crash.
    let err = Ttid::<MyType>::parse("user_xBuEXKpA6iqZQK5Kf2TnkW").unwrap_err();
    assert!(matches!(err, ParseTtidError::InvalidShortUuid));

    // The largest digit string of all: far above 2^128.
    let err = Ttid::<MyType>::parse("user_ZZZZZZZZZZZZZZZZZZZZZZ").unwrap_err();
    assert!(matches!(err, ParseTtidError::InvalidShortUuid));
}

#[test]
fn detect_type_mismatch() {
    let ttid = Ttid::<MyType>::from_parts(1_700_000_000_000, MyType::User, 42).unwrap();
    let text = ttid.to_text();
    let wrong = text.replacen("user_", "org_", 1);

    let err = Ttid::<MyType>::parse(&wrong).unwrap_err();
    assert!(matches!(err, ParseTtidError::TypeMismatch));
}

#[test]
fn reject_non_ttid_uuid() {
    let uuid = Uuid::new_v4();
    let err = Ttid::<MyType>::from_uuid(uuid).unwrap_err();
    assert!(matches!(err, TtidError::InvalidUuid));
}

#[test]
fn reject_unknown_type_id_for_target_domain() {
    let session = Ttid::<MyType>::from_parts(1_700_000_000_000, MyType::Session, 9).unwrap();
    let err = Ttid::<NarrowType>::from_uuid(session.as_uuid()).unwrap_err();
    assert!(matches!(err, TtidError::UnknownTypeId(777)));
}

#[test]
fn validates_part_limits() {
    let too_large_ts = TIMESTAMP_MAX + 1;
    let err = Ttid::<MyType>::from_parts(too_large_ts, MyType::User, 1).unwrap_err();
    assert!(matches!(err, TtidError::TimestampOutOfRange));

    let ttid = Ttid::<MyType>::from_parts(123, MyType::User, u64::MAX).unwrap();
    assert_eq!(ttid.randomness(), RANDOM_MASK);
}

#[test]
fn uuid_version_and_variant_are_set() {
    let ttid = Ttid::<MyType>::from_parts(1_700_000_000_000, MyType::Org, 12345).unwrap();
    let bytes = *ttid.as_uuid().as_bytes();

    assert_eq!(bytes[6] >> 4, 0b1000);
    assert_eq!(bytes[8] & 0b1100_0000, 0b1000_0000);
}

#[test]
fn uuid_and_ttid_conversion_traits_work() {
    let ttid = Ttid::<MyType>::from_parts(1_700_000_000_000, MyType::Org, 55).unwrap();

    let uuid: Uuid = ttid.as_uuid();
    let parsed = Ttid::<MyType>::from_uuid(uuid).unwrap();

    assert_eq!(parsed.id_type(), MyType::Org);
    assert_eq!(parsed.timestamp_ms(), 1_700_000_000_000);
}

#[test]
fn two_new_ids_are_distinct() {
    let a = Ttid::<MyType>::new(MyType::User).unwrap();
    let b = Ttid::<MyType>::new(MyType::User).unwrap();

    assert_ne!(a, b);
}

#[test]
fn timestamp_first_packing_improves_uuid_sorting() {
    let a = Ttid::<MyType>::from_parts(1_700_000_000_000, MyType::User, 0).unwrap();
    let b = Ttid::<MyType>::from_parts(1_700_000_000_001, MyType::User, 0).unwrap();
    let c = Ttid::<MyType>::from_parts(1_700_000_000_002, MyType::User, 0).unwrap();

    assert!(a.as_uuid().as_bytes() < b.as_uuid().as_bytes());
    assert!(b.as_uuid().as_bytes() < c.as_uuid().as_bytes());
}

#[test]
fn ordering_within_same_timestamp_uses_type_then_randomness() {
    let ts = 1_700_000_000_000;
    let user_low = Ttid::<MyType>::from_parts(ts, MyType::User, 1).unwrap();
    let org_low = Ttid::<MyType>::from_parts(ts, MyType::Org, 1).unwrap();
    let org_high = Ttid::<MyType>::from_parts(ts, MyType::Org, 2).unwrap();

    assert!(user_low.as_uuid().as_bytes() < org_low.as_uuid().as_bytes());
    assert!(org_low.as_uuid().as_bytes() < org_high.as_uuid().as_bytes());
}

#[test]
fn typed_identifiers_compare_like_their_values() {
    let ts = 1_700_000_000_000;
    let a = Ttid::<MyType>::from_parts(ts, MyType::User, 1).unwrap();
    let b = Ttid::<MyType>::from_parts(ts, MyType::User, 2).unwrap();
    let c = Ttid::<MyType>::from_parts(ts + 1, MyType::User, 0).unwrap();

    assert!(a < b);
    assert!(b < c);
    assert!(a.as_value() < b.as_value());
    assert!(b.as_value() < c.as_value());
}

#[test]
fn exact_bit_layout() {
    let ttid = Ttid::<MyType>::from_parts(1_700_000_000_000, MyType::User, 42).unwrap();

    let ts = 1_700_000_000_000u128;
    let tid = 1u128;
    let rnd = 42u128;
    let payload = (ts << 74) | (tid << 58) | rnd;
    let expected = (((payload >> 74) & 0xFFFF_FFFF_FFFF) << 80)
        | (0x8u128 << 76)
        | (((payload >> 62) & 0xFFF) << 64)
        | (0x2u128 << 62)
        | (payload & 0x3FFF_FFFF_FFFF_FFFF);

    assert_eq!(ttid.as_value(), expected);
    assert_eq!(ttid.as_value(), 0x18bcfe568008000840000000000002au128);
    assert_eq!(ttid.as_uuid().as_u128(), expected);
}

#[test]
fn exact_compact_text() {
    let ttid = Ttid::<MyType>::from_parts(1_700_000_000_000, MyType::User, 42).unwrap();
    assert_eq!(ttid.to_text(), "user_1c5gzAYW2NcGujvNFea22U");
}

#[test]
fn compact_text_is_22_base58_chars() {
    let alphabet = "123456789abcdefghijkmnopqrstuvwxyzABCDEFGHJKLMNPQRSTUVWXYZ";
    let ttid = Ttid::<MyType>::from_parts(TIMESTAMP_MAX, MyType::Max, RANDOM_MASK).unwrap();
    let text = ttid.to_text();
    let suffix = text.strip_prefix("max_").unwrap();

    assert_eq!(suffix.chars().count(), 22);
    assert!(suffix.chars().all(|c| alphabet.contains(c)));
}

#[test]
fn short_uuid_matches_text_suffix() {
    let ttid = Ttid::<MyType>::from_parts(1_700_000_000_000, MyType::Session, 7).unwrap();
    let text = ttid.to_text();
    let suffix = text.strip_prefix("session_").unwrap();

    assert_eq!(ttid.short_uuid().to_string(), suffix);
}

#[test]
fn from_value_accepts_only_marked_values() {
    let ttid = Ttid::<MyType>::from_parts(7, MyType::User, 7).unwrap();
    let good = Ttid::<MyType>::from_value(ttid.as_value()).unwrap();
    assert_eq!(good, ttid);

    // Clearing the version nibble breaks the marker check.
    let broken = ttid.as_value() & !(0xFu128 << 76);
    let err = Ttid::<MyType>::from_value(broken).unwrap_err();
    assert!(matches!(err, TtidError::InvalidUuid));
}

#[test]
fn max_randomness_roundtrips_through_text() {
    let ttid = Ttid::<MyType>::from_parts(TIMESTAMP_MAX, MyType::Max, RANDOM_MASK).unwrap();
    let parsed = Ttid::<MyType>::parse(&ttid.to_text()).unwrap();

    assert_eq!(parsed, ttid);
    assert_eq!(parsed.timestamp_ms(), TIMESTAMP_MAX);
    assert_eq!(parsed.randomness(), RANDOM_MASK);
    assert_eq!(parsed.id_type(), MyType::Max);
}

#[test]
fn error_messages_are_stable() {
    assert_eq!(
        TtidError::TimestampOutOfRange.message(),
        "timestamp exceeds 48-bit TTID limit"
    );
    assert_eq!(
        ParseTtidError::InvalidFormat.message(),
        "invalid TTID string format, expected <type>_<shortuuid>"
    );
}
