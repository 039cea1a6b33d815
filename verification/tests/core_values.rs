use paper_reader::error::{import_failed, not_found, schema_invalid, upstream, validation, AppError};
use paper_reader::json::{members_get, members_insert, strings_from_json, JsonMember, JsonValue};
use paper_reader::text::{collapse_ws_str, given_text_of, is_blank_str, trim_str, truncate_text};

#[test]
fn every_error_has_its_code() {
    let cases: Vec<(AppError, &str)> = vec![
        (validation("v"), "VALIDATION_ERROR"),
        (not_found("n"), "NOT_FOUND"),
        (upstream("u"), "UPSTREAM_UNAVAILABLE"),
        (import_failed("i"), "PAPER_IMPORT_FAILED"),
        (AppError::ParseFailed("p".into()), "PAPER_PARSE_FAILED"),
        (schema_invalid("s".to_string()), "AGENT_SCHEMA_INVALID"),
        (AppError::Internal("x".into()), "INTERNAL_ERROR"),
    ];
    for (error, code) in cases {
        let payload = error.payload();
        assert_eq!(payload.code, code);
        assert_eq!(payload.message, error.message());
    }
}

#[test]
fn inserting_replaces_or_appends() {
    let mut members = vec![JsonMember { key: "a".into(), value: JsonValue::Bool(true) }];
    members_insert(&mut members, "a", JsonValue::Bool(false));
    members_insert(&mut members, "b", JsonValue::Null);
    assert_eq!(members.len(), 2);
    assert!(matches!(members_get(&members, "a"), Some(JsonValue::Bool(false))));
    assert!(matches!(members_get(&members, "b"), Some(JsonValue::Null)));
    assert!(members_get(&members, "c").is_none());
}

#[test]
fn text_helpers() {
    assert_eq!(trim_str("\t a b \n"), "a b");
    assert!(is_blank_str(" \u{3000}\n"));
    assert!(!is_blank_str(" x "));
    assert_eq!(collapse_ws_str("  a \n\t b  "), "a b");
    assert_eq!(truncate_text("abcdef", 4), "abcd...");
    assert_eq!(truncate_text("abc", 4), "abc");
    assert_eq!(given_text_of(&Some("  v ".into())).as_deref(), Some("v"));
    assert_eq!(given_text_of(&Some("   ".into())), None);
}

#[test]
fn stored_string_lists_are_read_back() {
    assert_eq!(strings_from_json(Some(r#"["hs_1", "hs 2"]"#)), vec!["hs_1".to_string(), "hs 2".to_string()]);
    assert!(strings_from_json(Some("not json")).is_empty());
    assert!(strings_from_json(Some("[1, 2]")).is_empty());
    assert!(strings_from_json(None).is_empty());
}
