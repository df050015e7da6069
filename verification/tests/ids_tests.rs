use game_sessions::ids::{format_session_id, parse_session_id};

const SAMPLE_TEXT: &[u8] = b"550e8400-e29b-41d4-a716-446655440000";
const SAMPLE_VALUE: u128 = 0x550e8400_e29b_41d4_a716_446655440000;

#[test]
fn parses_canonical_lowercase() {
    assert_eq!(parse_session_id(SAMPLE_TEXT), Some(SAMPLE_VALUE));
}

#[test]
fn parses_canonical_uppercase() {
    assert_eq!(
        parse_session_id(b"550E8400-E29B-41D4-A716-446655440000"),
        Some(SAMPLE_VALUE)
    );
}

#[test]
fn parses_extreme_values() {
    assert_eq!(
        parse_session_id(b"00000000-0000-0000-0000-000000000000"),
        Some(0)
    );
    assert_eq!(
        parse_session_id(b"ffffffff-ffff-ffff-ffff-ffffffffffff"),
        Some(u128::MAX)
    );
}

#[test]
fn rejects_wrong_length() {
    assert_eq!(parse_session_id(b""), None);
    assert_eq!(parse_session_id(b"550e8400-e29b-41d4-a716-44665544000"), None);
    assert_eq!(parse_session_id(b"550e8400-e29b-41d4-a716-4466554400000"), None);
}

#[test]
fn rejects_misplaced_hyphen() {
    assert_eq!(parse_session_id(b"550e84000e29b-41d4-a716-446655440000"), None);
    assert_eq!(parse_session_id(b"-550e8400e29b-41d4-a716-446655440000"), None);
}

#[test]
fn rejects_non_hex_bytes() {
    assert_eq!(parse_session_id(b"550e8400-e29b-41d4-a716-44665544000g"), None);
    assert_eq!(parse_session_id(b"z50e8400-e29b-41d4-a716-446655440000"), None);
    assert_eq!(parse_session_id(b"550e8400 e29b-41d4-a716-446655440000"), None);
}

#[test]
fn formats_exact_text() {
    assert_eq!(format_session_id(SAMPLE_VALUE), SAMPLE_TEXT.to_vec());
    assert_eq!(
        format_session_id(0),
        b"00000000-0000-0000-0000-000000000000".to_vec()
    );
    assert_eq!(
        format_session_id(u128::MAX),
        b"ffffffff-ffff-ffff-ffff-ffffffffffff".to_vec()
    );
}

#[test]
fn round_trips_through_text() {
    let v: u128 = 0x0123_4567_89ab_cdef_0011_2233_4455_6677;
    let text = format_session_id(v);
    assert_eq!(parse_session_id(&text), Some(v));
}
