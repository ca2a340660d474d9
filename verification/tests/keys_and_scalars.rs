use smol_vergen::keys::{compose, normalize};
use smol_vergen::scalar::ScalarValue;
use smol_vergen::timestamp::{days_in_month_exec, parse_rfc3339_str, Timestamp};

#[test]
fn normalize_splits_case_transitions() {
    assert_eq!(normalize("helloWorld").as_str(), "HELLO_WORLD");
    assert_eq!(normalize("commitAuthor").as_str(), "COMMIT_AUTHOR");
}

#[test]
fn normalize_splits_separators() {
    assert_eq!(normalize("Commit-Short").as_str(), "COMMIT_SHORT");
    assert_eq!(normalize("commit_short").as_str(), "COMMIT_SHORT");
    assert_eq!(normalize("a--b").as_str(), "A_B");
    assert_eq!(normalize("  spaced out  ").as_str(), "SPACED_OUT");
}

#[test]
fn normalize_keeps_digits_in_tokens() {
    assert_eq!(normalize("abc123").as_str(), "ABC123");
    assert_eq!(normalize("x86Target").as_str(), "X86TARGET");
}

#[test]
fn normalize_empty_and_separator_only() {
    assert_eq!(normalize("").as_str(), "");
    assert_eq!(normalize("---").as_str(), "");
}

#[test]
fn normalize_is_idempotent_on_samples() {
    for s in ["helloWorld", "Commit-Short", "ALREADY_UPPER", "a1b2C3", "", "_x_"] {
        let once = normalize(s);
        let twice = normalize(once.as_str());
        assert_eq!(once, twice);
    }
}

#[test]
fn compose_skips_empty_prefix() {
    assert_eq!(compose("", "name").as_str(), "NAME");
    assert_eq!(compose("P", "name").as_str(), "P_NAME");
    assert_eq!(compose("TEST_COMMIT_AUTHOR", "email").as_str(), "TEST_COMMIT_AUTHOR_EMAIL");
}

#[test]
fn encode_text_verbatim() {
    let v = ScalarValue::Text("John Doe".to_string());
    assert_eq!(v.encode().as_str(), "John Doe");
}

#[test]
fn encode_booleans() {
    assert_eq!(ScalarValue::Boolean(true).encode().as_str(), "true");
    assert_eq!(ScalarValue::Boolean(false).encode().as_str(), "false");
}

#[test]
fn encode_integers() {
    assert_eq!(ScalarValue::Integer(0).encode().as_str(), "0");
    assert_eq!(ScalarValue::Integer(42).encode().as_str(), "42");
    assert_eq!(ScalarValue::Integer(-7).encode().as_str(), "-7");
    assert_eq!(
        ScalarValue::Integer(i64::MIN).encode().as_str(),
        "-9223372036854775808"
    );
    assert_eq!(
        ScalarValue::Integer(i64::MAX).encode().as_str(),
        "9223372036854775807"
    );
}

#[test]
fn encode_characters() {
    assert_eq!(ScalarValue::Character('x').encode().as_str(), "x");
}

#[test]
fn encode_timestamp_epoch() {
    let t = Timestamp::unix_epoch();
    assert_eq!(
        ScalarValue::Timestamp(t).encode().as_str(),
        "1970-01-01T00:00:00+00:00"
    );
}

#[test]
fn encode_timestamp_negative_offset() {
    let t = Timestamp::from_fields(2023, 6, 7, 8, 9, 10, -330).unwrap();
    assert_eq!(
        ScalarValue::Timestamp(t).encode().as_str(),
        "2023-06-07T08:09:10-05:30"
    );
}

#[test]
fn decode_timestamp_hit() {
    let v = ScalarValue::decode("2021-03-14T15:09:26+01:30");
    match v {
        ScalarValue::Timestamp(t) => {
            assert_eq!(t.year, 2021);
            assert_eq!(t.month, 3);
            assert_eq!(t.day, 14);
            assert_eq!(t.hour, 15);
            assert_eq!(t.minute, 9);
            assert_eq!(t.second, 26);
            assert_eq!(t.offset_minutes, 90);
        }
        _ => panic!("expected a timestamp"),
    }
}

#[test]
fn decode_falls_back_to_text() {
    for s in [
        "hello",
        "2021-13-01T00:00:00+00:00",
        "2023-02-29T00:00:00+00:00",
        "2021-03-14T15:09:26.5+00:00",
        "2021-03-14T15:09:60+00:00",
        "2021-03-14X15:09:26+00:00",
        "",
    ] {
        match ScalarValue::decode(s) {
            ScalarValue::Text(t) => assert_eq!(t.as_str(), s),
            _ => panic!("expected text for {:?}", s),
        }
    }
}

#[test]
fn decode_accepts_zulu_and_loose_separators() {
    for s in [
        "2021-03-14T15:09:26Z",
        "2021-03-14t15:09:26z",
        "2021-03-14 15:09:26Z",
    ] {
        match ScalarValue::decode(s) {
            ScalarValue::Timestamp(t) => {
                assert_eq!(t.year, 2021);
                assert_eq!(t.month, 3);
                assert_eq!(t.day, 14);
                assert_eq!(t.hour, 15);
                assert_eq!(t.minute, 9);
                assert_eq!(t.second, 26);
                assert_eq!(t.offset_minutes, 0);
            }
            _ => panic!("expected a timestamp for {:?}", s),
        }
    }
    match ScalarValue::decode("2021-03-14 15:09:26+01:00") {
        ScalarValue::Timestamp(t) => assert_eq!(t.offset_minutes, 60),
        _ => panic!("expected a timestamp"),
    }
}

#[test]
fn timestamp_round_trip_preserves_offset() {
    let cases = [
        (1970, 1, 1, 0, 0, 0, 0),
        (2021, 3, 14, 15, 9, 26, 90),
        (2024, 2, 29, 23, 59, 59, -1439),
        (9999, 12, 31, 0, 0, 0, 1439),
    ];
    for (y, mo, d, h, mi, se, off) in cases {
        let t = Timestamp::from_fields(y, mo, d, h, mi, se, off).unwrap();
        let encoded = ScalarValue::Timestamp(t).encode();
        match ScalarValue::decode(encoded.as_str()) {
            ScalarValue::Timestamp(t2) => assert_eq!(t, t2),
            _ => panic!("round trip lost the timestamp"),
        }
    }
}

#[test]
fn from_fields_validates() {
    assert!(Timestamp::from_fields(2021, 13, 1, 0, 0, 0, 0).is_none());
    assert!(Timestamp::from_fields(2021, 4, 31, 0, 0, 0, 0).is_none());
    assert!(Timestamp::from_fields(2021, 1, 1, 24, 0, 0, 0).is_none());
    assert!(Timestamp::from_fields(2021, 1, 1, 0, 0, 0, 1440).is_none());
    assert!(Timestamp::from_fields(10000, 1, 1, 0, 0, 0, 0).is_none());
    assert!(Timestamp::from_fields(2021, 1, 1, 0, 0, 0, 0).is_some());
}

#[test]
fn leap_year_day_counts() {
    assert_eq!(days_in_month_exec(1900, 2), 28);
    assert_eq!(days_in_month_exec(2000, 2), 29);
    assert_eq!(days_in_month_exec(2024, 2), 29);
    assert_eq!(days_in_month_exec(2023, 2), 28);
    assert_eq!(days_in_month_exec(2023, 4), 30);
    assert_eq!(days_in_month_exec(2023, 12), 31);
}

#[test]
fn parse_rejects_wrong_shapes() {
    assert!(parse_rfc3339_str("2021-03-14T15:09:26+00:00").is_some());
    assert!(parse_rfc3339_str("2021-03-14 15:09:26+00:00").is_some());
    assert!(parse_rfc3339_str("2021-03-14T15:09:26+0000").is_none());
    assert!(parse_rfc3339_str("21-03-14T15:09:26+00:00").is_none());
    assert!(parse_rfc3339_str("2021-03-14T15:09:26ZZ").is_none());
    assert!(parse_rfc3339_str("2021-03-14T15:09:26").is_none());
}
