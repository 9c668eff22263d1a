use media::error::MediaError;
use media::identifier::MediaId;

fn sample_bytes() -> Vec<u8> {
    vec![
        0x67, 0xe5, 0x50, 0x44, 0x10, 0xb1, 0x42, 0x6f, 0x92, 0x47, 0xbb, 0x68, 0x0e, 0x5f, 0xe0,
        0xc8,
    ]
}

#[test]
fn hyphenated_has_canonical_form() {
    let id = MediaId::from_bytes(sample_bytes());
    assert_eq!(id.hyphenated(), "67e55044-10b1-426f-9247-bb680e5fe0c8");
}

#[test]
fn hyphenated_matches_uuid_crate_formatting() {
    let id = MediaId::from_bytes(sample_bytes());
    let mut arr = [0u8; 16];
    arr.copy_from_slice(&sample_bytes());
    let reference = bson::Uuid::from_bytes(arr);
    assert_eq!(id.hyphenated(), reference.to_string());
}

#[test]
fn parse_round_trips_fresh_identifier() {
    let id = MediaId::fresh();
    let text = id.hyphenated();
    let parsed = MediaId::parse(&text).expect("canonical form must parse");
    assert_eq!(parsed.hyphenated(), text);
}

#[test]
fn parse_accepts_uppercase_hex() {
    let parsed = MediaId::parse("67E55044-10B1-426F-9247-BB680E5FE0C8").expect("uppercase parses");
    assert_eq!(parsed.hyphenated(), "67e55044-10b1-426f-9247-bb680e5fe0c8");
}

#[test]
fn parse_rejects_wrong_length() {
    let r = MediaId::parse("67e55044-10b1-426f-9247-bb680e5fe0c");
    match r {
        Err(MediaError::Validation(m)) => assert_eq!(m, "invalid media identifier"),
        _ => panic!("a short string must be rejected"),
    }
}

#[test]
fn parse_rejects_missing_hyphen() {
    assert!(MediaId::parse("67e55044010b1-426f-9247-bb680e5fe0c8").is_err());
}

#[test]
fn parse_rejects_non_hex_digit() {
    assert!(MediaId::parse("g7e55044-10b1-426f-9247-bb680e5fe0c8").is_err());
}

#[test]
fn fresh_identifiers_are_distinct() {
    let a = MediaId::fresh();
    let b = MediaId::fresh();
    assert_ne!(a.hyphenated(), b.hyphenated());
}
