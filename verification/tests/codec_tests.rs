use fxoanda::codec::{
    decode_decimal_field, decode_timestamp_field, encode_decimal_field, encode_timestamp_field,
};
use fxoanda::decimal::DecimalString;
use fxoanda::errors::DecodeError;
use fxoanda::rfc3339::{format_rfc3339, parse_rfc3339};
use fxoanda::timestamp::Timestamp;

#[test]
fn epoch_instants() {
    let ts = parse_rfc3339("1970-01-01T00:00:00Z").expect("epoch must parse");
    assert_eq!(ts.seconds(), 0);
    assert_eq!(ts.nanos(), 0);
    let ts = parse_rfc3339("1970-01-02T00:00:00Z").expect("must parse");
    assert_eq!(ts.seconds(), 86400);
    let ts = parse_rfc3339("1969-12-31T23:59:59Z").expect("must parse");
    assert_eq!(ts.seconds(), -1);
    let ts = parse_rfc3339("2001-09-09T01:46:40Z").expect("must parse");
    assert_eq!(ts.seconds(), 1_000_000_000);
}

#[test]
fn format_is_canonical() {
    let ts = Timestamp::new(0, 0).unwrap();
    assert_eq!(format_rfc3339(&ts), "1970-01-01T00:00:00Z");
    let ts = Timestamp::new(1_000_000_000, 0).unwrap();
    assert_eq!(format_rfc3339(&ts), "2001-09-09T01:46:40Z");
    let ts = Timestamp::new(0, 123_456_789).unwrap();
    assert_eq!(format_rfc3339(&ts), "1970-01-01T00:00:00.123456789Z");
    let ts = Timestamp::new(-1, 0).unwrap();
    assert_eq!(format_rfc3339(&ts), "1969-12-31T23:59:59Z");
}

#[test]
fn round_trip_preserves_instant() {
    let inputs = [
        "2023-06-15T10:30:00Z",
        "2023-06-15T10:30:00.5Z",
        "2023-06-15T12:30:00+02:00",
        "2023-06-15T08:00:00-05:30",
        "2024-02-29T23:59:59.999999999Z",
        "0000-01-01T00:00:00Z",
        "9999-12-31T23:59:59Z",
        "1996-12-19T16:39:57-08:00",
    ];
    for s in inputs {
        let ts = parse_rfc3339(s).expect("valid input must parse");
        let w = format_rfc3339(&ts);
        let back = parse_rfc3339(&w).expect("the canonical rendering must parse");
        assert_eq!(back.seconds(), ts.seconds(), "seconds differ for {s}");
        assert_eq!(back.nanos(), ts.nanos(), "nanos differ for {s}");
    }
}

#[test]
fn offsets_normalize_to_utc() {
    let with_offset = parse_rfc3339("2023-06-15T12:30:00+02:00").unwrap();
    let utc = parse_rfc3339("2023-06-15T10:30:00Z").unwrap();
    assert_eq!(with_offset.seconds(), utc.seconds());
    assert_eq!(format_rfc3339(&with_offset), "2023-06-15T10:30:00Z");
    let negative = parse_rfc3339("2023-06-15T05:00:00-05:00").unwrap();
    assert_eq!(negative.seconds(), utc.seconds() - 30 * 60);
}

#[test]
fn fraction_digits_beyond_nine_are_ignored() {
    let ts = parse_rfc3339("2023-01-01T00:00:00.1234567891234Z").unwrap();
    assert_eq!(ts.nanos(), 123_456_789);
    let ts = parse_rfc3339("2023-01-01T00:00:00.5Z").unwrap();
    assert_eq!(ts.nanos(), 500_000_000);
}

#[test]
fn lowercase_markers_accepted() {
    let a = parse_rfc3339("2023-06-15t10:30:00z").unwrap();
    let b = parse_rfc3339("2023-06-15T10:30:00Z").unwrap();
    assert_eq!(a.seconds(), b.seconds());
}

#[test]
fn malformed_date_times_rejected() {
    let bad = [
        "",
        "0",
        "2023-06-15",
        "2023-06-15T10:30:00",
        "2023-06-15 10:30:00Z",
        "2023-13-01T00:00:00Z",
        "2023-02-29T00:00:00Z",
        "2023-06-15T24:00:00Z",
        "2023-06-15T10:60:00Z",
        "2023-06-15T10:30:60Z",
        "2023-06-15T10:30:00.Z",
        "2023-06-15T10:30:00+25:00",
        "2023-06-15T10:30:00+02:60",
        "2023-06-15T10:30:00+0200",
        "2023-06-15T10:30:00Zjunk",
        "not-a-date",
    ];
    for s in bad {
        assert!(parse_rfc3339(s).is_none(), "{s:?} must be rejected");
    }
}

#[test]
fn leap_years_respected() {
    assert!(parse_rfc3339("2024-02-29T00:00:00Z").is_some());
    assert!(parse_rfc3339("2023-02-29T00:00:00Z").is_none());
    assert!(parse_rfc3339("2000-02-29T00:00:00Z").is_some());
    assert!(parse_rfc3339("1900-02-29T00:00:00Z").is_none());
}

#[test]
fn out_of_range_instants_rejected() {
    // a valid local time whose UTC normalization leaves the year range
    assert!(parse_rfc3339("0000-01-01T00:00:00+01:00").is_none());
    assert!(parse_rfc3339("9999-12-31T23:59:59-01:00").is_none());
    assert!(Timestamp::new(i64::MAX, 0).is_none());
    assert!(Timestamp::new(0, 1_000_000_000).is_none());
}

#[test]
fn sentinel_yields_no_value() {
    assert_eq!(decode_timestamp_field(Some("0")), Ok(None));
    assert_eq!(decode_timestamp_field(None), Ok(None));
}

#[test]
fn malformed_timestamp_field_is_fatal() {
    let r = decode_timestamp_field(Some("00"));
    match r {
        Err(e) => {
            assert!(e.is_fatal());
            assert!(matches!(e, DecodeError::MalformedTimestamp { .. }));
        },
        Ok(v) => panic!("expected a fatal decode error, got {v:?}"),
    }
    let r = decode_timestamp_field(Some("garbage"));
    assert!(matches!(r, Err(DecodeError::MalformedTimestamp { .. })));
}

#[test]
fn timestamp_field_round_trip() {
    let decoded = decode_timestamp_field(Some("2023-06-15T12:30:00+02:00"))
        .unwrap()
        .unwrap();
    let encoded = encode_timestamp_field(Some(&decoded)).unwrap();
    assert_eq!(encoded, "2023-06-15T10:30:00Z");
    assert_ne!(encoded, "0");
    assert_eq!(encode_timestamp_field(None), None);
}

#[test]
fn float_encode_decode_preserves_value() {
    let values: [f32; 8] = [0.0, 1.5, -3.25, 0.1, 1e-7, 3.4e38, 12345.678, -0.000125];
    for f in values {
        let text = f.to_string();
        let decoded = decode_decimal_field(Some(&text))
            .expect("the rendering of a float must decode")
            .expect("a present field must yield a value");
        let back: f32 = decoded.as_str().parse().unwrap();
        assert_eq!(back, f, "value changed for {f}");
    }
}

#[test]
fn non_numeric_decimal_is_recoverable() {
    let r = decode_decimal_field(Some("abc"));
    match r {
        Err(e) => {
            assert!(!e.is_fatal());
            assert!(matches!(e, DecodeError::MalformedDecimal { .. }));
        },
        Ok(v) => panic!("expected a recoverable decode error, got {v:?}"),
    }
    assert_eq!(decode_decimal_field(None), Ok(None));
}

#[test]
fn decimal_grammar_matches_float_parsing() {
    let accepted = ["1", "1.5", "-3.25", ".5", "5.", "1e5", "+1.5e-3", "inf", "Infinity", "NaN", "-inf", "nan"];
    for s in accepted {
        assert!(DecimalString::new(s.to_string()).is_some(), "{s:?} must be accepted");
        assert!(s.parse::<f32>().is_ok(), "{s:?} must be a float literal");
    }
    let rejected = ["", "+", "-", ".", "1e", "1.2.3", "abc", "1 ", " 1", "0x10", "e5", "infx"];
    for s in rejected {
        assert!(DecimalString::new(s.to_string()).is_none(), "{s:?} must be rejected");
        assert!(s.parse::<f32>().is_err(), "{s:?} must not be a float literal");
    }
}

#[test]
fn decimal_field_encode_is_identity() {
    let d = decode_decimal_field(Some("42.5")).unwrap().unwrap();
    assert_eq!(encode_decimal_field(Some(&d)), Some("42.5".to_string()));
    assert_eq!(encode_decimal_field(None), None);
}

#[test]
fn decode_errors_carry_the_input() {
    match decode_timestamp_field(Some("junk")) {
        Err(DecodeError::MalformedTimestamp { input }) => assert_eq!(input, "junk"),
        other => panic!("unexpected result {other:?}"),
    }
    match decode_decimal_field(Some("junk")) {
        Err(DecodeError::MalformedDecimal { input }) => assert_eq!(input, "junk"),
        other => panic!("unexpected result {other:?}"),
    }
    let msg = DecodeError::MalformedDecimal { input: "junk".to_string() }.message();
    assert_eq!(msg, "non-numeric decimal: junk");
}

#[test]
fn agrees_with_chrono_parsing() {
    let inputs = [
        "2023-06-15T10:30:00Z",
        "2023-06-15T12:30:00+02:00",
        "1996-12-19T16:39:57-08:00",
        "2024-02-29T06:07:08.25Z",
        "1969-12-31T23:59:59Z",
    ];
    for s in inputs {
        let ours = parse_rfc3339(s).expect("must parse");
        let theirs = chrono::DateTime::parse_from_rfc3339(s).expect("chrono must parse");
        assert_eq!(ours.seconds(), theirs.timestamp(), "seconds differ for {s}");
        assert_eq!(ours.nanos(), theirs.timestamp_subsec_nanos(), "nanos differ for {s}");
        // and chrono accepts our canonical rendering, at the same instant
        let rendered = format_rfc3339(&ours);
        let again = chrono::DateTime::parse_from_rfc3339(&rendered).expect("rendering must parse");
        assert_eq!(again.timestamp(), theirs.timestamp());
        assert_eq!(again.timestamp_subsec_nanos(), theirs.timestamp_subsec_nanos());
    }
}
