use memora::domain::errors::DomainError;
use memora::domain::value_objects::timestamp::{self, UtcParts};
use memora::domain::value_objects::ContentHash;

#[test]
fn content_hash_is_stable() {
    let a = ContentHash::compute("docker compose up");
    let b = ContentHash::compute("docker compose up");
    assert_eq!(a, b);
    assert_eq!(a.as_str().len(), 64);
}

#[test]
fn content_hash_changes_with_content() {
    let a = ContentHash::compute("abc");
    let b = ContentHash::compute("abd");
    assert_ne!(a, b);
}

#[test]
fn from_hex_validates_length_and_chars() {
    let valid = "a".repeat(64);
    assert!(ContentHash::from_hex(&valid).is_ok());
    assert!(ContentHash::from_hex("abc").is_err());
    assert!(ContentHash::from_hex(&"g".repeat(64)).is_err());
}

#[test]
fn timestamp_is_utc_iso() {
    let now = timestamp::now();
    assert!(now.ends_with('Z'));
    assert_eq!(now.len(), 27); // %Y-%m-%dT%H:%M:%S.%fZ with microseconds
}

#[test]
fn content_hash_is_sha256_hex_of_utf8() {
    let h = ContentHash::compute("abc");
    assert_eq!(
        h.as_str(),
        "ba7816bf8f01cfea414140de5dae2223b00361a396177a9cb410ff61f20015ad"
    );
    let empty = ContentHash::compute("");
    assert_eq!(
        empty.as_str(),
        "e3b0c44298fc1c149afbf4c8996fb92427ae41e4649b934ca495991b7852b855"
    );
    // Non-ASCII text is hashed through its UTF-8 bytes.
    let accented = ContentHash::compute("está");
    assert_eq!(accented.as_str().len(), 64);
    assert_ne!(accented, ContentHash::compute("esta"));
}

#[test]
fn from_hex_keeps_lowercase_and_reports_input() {
    let upper = "ABCDEF0123456789".repeat(4);
    let h = ContentHash::from_hex(&upper).unwrap();
    assert_eq!(h.as_str(), "abcdef0123456789".repeat(4));
    match ContentHash::from_hex("xyz") {
        Err(DomainError::InvalidHash(s)) => assert_eq!(s, "xyz"),
        other => panic!("unexpected {:?}", other),
    }
    // 65 characters and 63 characters are refused.
    assert!(ContentHash::from_hex(&"0".repeat(65)).is_err());
    assert!(ContentHash::from_hex(&"0".repeat(63)).is_err());
    // A non-ASCII character is no hexadecimal digit, whatever the byte length.
    let mut odd = "0".repeat(62);
    odd.push('é');
    assert_eq!(odd.len(), 64);
    assert!(ContentHash::from_hex(&odd).is_err());
}

#[test]
fn computed_hash_reads_back_through_from_hex() {
    let h = ContentHash::compute("docker compose up");
    let back = ContentHash::from_hex(h.as_str()).unwrap();
    assert_eq!(back, h);
    assert_eq!(h.to_string(), h.as_str());
    assert_eq!(h.clone().into_string(), h.as_str().to_string());
}

#[test]
fn format_utc_pads_every_field() {
    let p = UtcParts { year: 2024, month: 3, day: 5, hour: 7, minute: 8, second: 9, microsecond: 123 };
    assert_eq!(timestamp::format_utc(&p), "2024-03-05T07:08:09.000123Z");
    let p = UtcParts { year: 999, month: 12, day: 31, hour: 23, minute: 59, second: 59, microsecond: 999_999 };
    assert_eq!(timestamp::format_utc(&p), "0999-12-31T23:59:59.999999Z");
}

#[test]
fn format_utc_matches_std_format_for_unusual_years() {
    for year in [-9999i32, -1000, -999, -5, 0, 7, 10000, 123456] {
        let p = UtcParts { year, month: 1, day: 2, hour: 3, minute: 4, second: 5, microsecond: 6 };
        let expected = format!(
            "{:04}-{:02}-{:02}T{:02}:{:02}:{:02}.{:06}Z",
            year, 1u8, 2u8, 3u8, 4u8, 5u8, 6u32
        );
        assert_eq!(timestamp::format_utc(&p), expected);
    }
}

#[test]
fn timestamps_sort_as_text_in_time_order() {
    let instants = [
        UtcParts { year: 2023, month: 12, day: 31, hour: 23, minute: 59, second: 59, microsecond: 999_999 },
        UtcParts { year: 2024, month: 1, day: 1, hour: 0, minute: 0, second: 0, microsecond: 0 },
        UtcParts { year: 2024, month: 1, day: 1, hour: 0, minute: 0, second: 0, microsecond: 1 },
        UtcParts { year: 2024, month: 2, day: 9, hour: 10, minute: 0, second: 0, microsecond: 0 },
        UtcParts { year: 2024, month: 10, day: 1, hour: 9, minute: 0, second: 0, microsecond: 0 },
    ];
    for w in instants.windows(2) {
        assert!(timestamp::format_utc(&w[0]) < timestamp::format_utc(&w[1]));
    }
    // A negative year breaks the text order.
    let a = UtcParts { year: -2, month: 1, day: 1, hour: 0, minute: 0, second: 0, microsecond: 0 };
    let b = UtcParts { year: -1, ..a };
    assert!(timestamp::format_utc(&a) > timestamp::format_utc(&b));
}

#[test]
fn from_hex_output_is_canonical() {
    let upper = "F".repeat(64);
    let once = ContentHash::from_hex(&upper).unwrap();
    let twice = ContentHash::from_hex(once.as_str()).unwrap();
    assert_eq!(once, twice);
}
