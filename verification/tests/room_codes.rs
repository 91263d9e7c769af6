use terracotta::error::TerracottaError;
use terracotta::room::{host_request_path, join_request_path, normalize_room_code};

#[test]
fn normalizes_lower_case_code() {
    let code = normalize_room_code("  u/abcd-1234-efgh-5678 \n").unwrap();
    assert_eq!(code, "U/ABCD-1234-EFGH-5678");
}

#[test]
fn keeps_canonical_code() {
    let code = normalize_room_code("U/ABCD-1234-EFGH-5678").unwrap();
    assert_eq!(code, "U/ABCD-1234-EFGH-5678");
    let again = normalize_room_code(&code).unwrap();
    assert_eq!(again, code);
}

#[test]
fn rejects_missing_prefix() {
    let err = normalize_room_code("ABCD-1234-EFGH-5678").unwrap_err();
    assert!(matches!(err, TerracottaError::InvalidRoomCode));
    assert_eq!(
        err.message(),
        "Invalid room code. Expected format: U/XXXX-XXXX-XXXX-XXXX"
    );
}

#[test]
fn rejects_wrong_prefix_letter() {
    assert!(normalize_room_code("X/ABCD-1234-EFGH-5678").is_err());
    assert!(normalize_room_code("U\\ABCD-1234-EFGH-5678").is_err());
}

#[test]
fn rejects_wrong_group_count_or_size() {
    assert!(normalize_room_code("U/ABCD-1234-EFGH").is_err());
    assert!(normalize_room_code("U/ABCD-1234-EFGH-5678-9ABC").is_err());
    assert!(normalize_room_code("U/ABCDE-1234-EFGH-567").is_err());
    assert!(normalize_room_code("U/ABC-1234-EFGH-56789").is_err());
    assert!(normalize_room_code("U/").is_err());
    assert!(normalize_room_code("").is_err());
}

#[test]
fn rejects_non_alphanumeric_characters() {
    assert!(normalize_room_code("U/AB_D-1234-EFGH-5678").is_err());
    assert!(normalize_room_code("U/ABCD-12 4-EFGH-5678").is_err());
    assert!(normalize_room_code("U/ÀBCD-1234-EFGH-5678").is_err());
    assert!(normalize_room_code("U/ABCD--1234-EFGH-567").is_err());
}

#[test]
fn trims_unicode_whitespace() {
    let code = normalize_room_code("\u{3000}U/abcd-1234-efgh-5678\u{a0}").unwrap();
    assert_eq!(code, "U/ABCD-1234-EFGH-5678");
}

#[test]
fn host_path_without_room() {
    assert_eq!(
        host_request_path(None, "Steve").unwrap(),
        "/state/scanning?room=&player=Steve"
    );
    assert_eq!(
        host_request_path(Some("   ".to_string()), " Alex Doe ").unwrap(),
        "/state/scanning?room=&player=Alex%20Doe"
    );
}

#[test]
fn host_path_with_room() {
    assert_eq!(
        host_request_path(Some(" u/abcd-1234-efgh-5678".to_string()), "Steve").unwrap(),
        "/state/scanning?room=U%2FABCD-1234-EFGH-5678&player=Steve"
    );
}

#[test]
fn host_path_with_invalid_room() {
    let err = host_request_path(Some("room".to_string()), "Steve").unwrap_err();
    assert!(matches!(err, TerracottaError::InvalidRoomCode));
}

#[test]
fn join_path() {
    assert_eq!(
        join_request_path("  u/wxyz-0000-aaaa-9999  ", "Jön & Co").unwrap(),
        "/state/guesting?room=U%2FWXYZ-0000-AAAA-9999&player=J%C3%B6n%20%26%20Co"
    );
    assert!(join_request_path("", "Steve").is_err());
}

#[test]
fn normalizing_ignores_case_and_surrounding_space() {
    let code = "  u/AbCd-1234-eFgH-5678\t";
    let expected = normalize_room_code(code).unwrap();
    assert_eq!(normalize_room_code(code.trim()).unwrap(), expected);
    assert_eq!(normalize_room_code(&code.to_ascii_lowercase()).unwrap(), expected);
    assert_eq!(normalize_room_code(&code.to_ascii_uppercase()).unwrap(), expected);
    assert!(normalize_room_code(&"U/ABCD-1234".to_ascii_lowercase()).is_err());
}
