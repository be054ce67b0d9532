use openchat_core::audit::{audit_csv, audit_csv_row, audit_page_bounds, escape_csv, export_row_limit, AuditLogRow};
use openchat_core::credentials::{
    decrypt_credential, encrypt_credential, encrypt_s3_keys, validate_storage_settings,
    StorageSettingsRequest,
};
use openchat_core::errors::{bad_request, concat2, concat3, forbidden, internal, not_found, ApiError};
use openchat_core::text::{
    collapse_whitespace, contains_char, contains_str, decimal_string, first_piece, is_blank,
    is_whitespace, join_strings, split_words, starts_with, str_eq, strip_prefix, trim,
};

fn storage(t: &str, bucket: bool, region: bool, key: bool, secret: bool) -> StorageSettingsRequest {
    StorageSettingsRequest {
        storage_type: t.to_string(),
        s3_bucket: bucket.then(|| "b".to_string()),
        s3_region: region.then(|| "r".to_string()),
        s3_access_key_id: key.then(|| "AKIA".to_string()),
        s3_secret_key: secret.then(|| "s3cr3t".to_string()),
        s3_endpoint: None,
    }
}

#[test]
fn credentials_round_trip() {
    assert_eq!(encrypt_credential("secret"), "c2VjcmV0");
    assert_eq!(decrypt_credential("c2VjcmV0").unwrap(), "secret");
    for s in ["", "a", "über-geheim ✓", "SECRET-REDACTED"] {
        assert_eq!(decrypt_credential(&encrypt_credential(s)).unwrap(), s);
    }
}

#[test]
fn unreadable_credentials_are_internal_errors() {
    let e = decrypt_credential("not base64!").unwrap_err();
    assert!(matches!(e, ApiError::Internal(ref m) if m.starts_with("Failed to decrypt credential: ")));
    // "/w==" decodes to the single byte 0xff, which is not UTF-8
    let e = decrypt_credential("/w==").unwrap_err();
    assert!(matches!(e, ApiError::Internal(ref m) if m.starts_with("Invalid credential format: ")));
}

#[test]
fn storage_settings_are_checked() {
    assert!(validate_storage_settings(&storage("local", false, false, false, false)).is_ok());
    assert!(validate_storage_settings(&storage("s3", true, true, true, true)).is_ok());
    let e = validate_storage_settings(&storage("gcs", true, true, true, true)).unwrap_err();
    assert_eq!(e.message(), "Bad request: storage_type must be 'local' or 's3'");
    let e = validate_storage_settings(&storage("s3", true, false, true, true)).unwrap_err();
    assert_eq!(e.message(), "Bad request: s3_bucket and s3_region are required for S3 storage");
    let e = validate_storage_settings(&storage("s3", true, true, false, true)).unwrap_err();
    assert_eq!(
        e.message(),
        "Bad request: s3_access_key_id and s3_secret_key are required for S3 storage"
    );
    let (a, s) = encrypt_s3_keys(&storage("s3", true, true, true, false));
    assert_eq!(a.as_deref(), Some("QUtJQQ=="));
    assert_eq!(s, None);
}

#[test]
fn csv_fields_are_escaped_when_needed() {
    assert_eq!(escape_csv("plain"), "plain");
    assert_eq!(escape_csv("a,b"), "\"a,b\"");
    assert_eq!(escape_csv("say \"hi\""), "\"say \"\"hi\"\"\"");
    assert_eq!(escape_csv("two\nlines"), "\"two\nlines\"");
    assert_eq!(escape_csv(""), "");
}

#[test]
fn audit_export() {
    assert_eq!(audit_page_bounds(None, None), (100, 0));
    assert_eq!(audit_page_bounds(Some(5), Some(10)), (5, 10));
    assert_eq!(export_row_limit(), 10000);
    let row = AuditLogRow {
        id: 1,
        user_id: None,
        action: "message.deleted".to_string(),
        resource_type: "message".to_string(),
        resource_id: Some(2),
        ip_address: Some("10.0.0.1".to_string()),
        user_agent: Some("Mozilla, 5.0".to_string()),
        timestamp: "2024-01-01T00:00:00+00:00".to_string(),
        metadata_json: "{\"a\":1}".to_string(),
    };
    let line = audit_csv_row(&row);
    assert_eq!(
        line,
        "00000000-0000-0000-0000-000000000001,,message.deleted,message,00000000-0000-0000-0000-000000000002,10.0.0.1,\"Mozilla, 5.0\",2024-01-01T00:00:00+00:00,\"{\"\"a\"\":1}\"\n"
    );
    let csv = audit_csv(&vec![row]);
    assert!(csv.starts_with("ID,User ID,Action,Resource Type,Resource ID,IP Address,User Agent,Timestamp,Metadata\n"));
    assert!(csv.ends_with(&line));
    assert_eq!(
        audit_csv(&vec![]),
        "ID,User ID,Action,Resource Type,Resource ID,IP Address,User Agent,Timestamp,Metadata\n"
    );
}

#[test]
fn errors_have_their_status_and_message() {
    let cases: Vec<(ApiError, u16, &str)> = vec![
        (ApiError::Database("x".to_string()), 500, "Database error: x"),
        (ApiError::Redis("x".to_string()), 500, "Redis error: x"),
        (ApiError::Authentication("x".to_string()), 401, "Authentication error: x"),
        (forbidden("x"), 403, "Authorization error: x"),
        (not_found("x"), 404, "Not found: x"),
        (bad_request("x"), 400, "Bad request: x"),
        (internal("x"), 500, "Internal server error: x"),
        (ApiError::ExternalApi("x".to_string()), 502, "External API error: x"),
    ];
    for (e, code, msg) in cases {
        assert_eq!(e.status_code(), code);
        assert_eq!(e.message(), msg);
    }
    assert_eq!(concat2("a", "b"), "ab");
    assert_eq!(concat3("a", "b", "c"), "abc");
}

#[test]
fn text_utilities() {
    assert!(is_whitespace(' ') && is_whitespace('\u{3000}') && !is_whitespace('x'));
    assert_eq!(trim("  a b \n"), "a b");
    assert_eq!(trim("\u{2003}x\u{2003}"), "x");
    assert!(is_blank(" \t\n") && is_blank("") && !is_blank(" a "));
    assert!(str_eq("abc", "abc") && !str_eq("abc", "abd") && !str_eq("ab", "abc"));
    assert!(starts_with("Bearer x", "Bearer ") && !starts_with("Bear", "Bearer "));
    assert_eq!(strip_prefix("Bearer tok", "Bearer ").as_deref(), Some("tok"));
    assert_eq!(strip_prefix("Basic tok", "Bearer "), None);
    assert_eq!(first_piece("1.2.3.4, 5.6.7.8", ','), "1.2.3.4");
    assert_eq!(first_piece("no comma", ','), "no comma");
    assert_eq!(first_piece(",x", ','), "");
    assert!(contains_char("a,b", ',') && !contains_char("ab", ','));
    assert!(contains_str("text/html; x", "text/html") && !contains_str("text/htm", "text/html"));
    assert_eq!(split_words("  a  bc\td "), vec!["a", "bc", "d"]);
    assert_eq!(join_strings(&vec!["a".to_string(), "b".to_string()], ", "), "a, b");
    assert_eq!(join_strings(&vec![], ", "), "");
    assert_eq!(collapse_whitespace(" x \n y "), "x y");
    assert_eq!(decimal_string(0), "0");
    assert_eq!(decimal_string(18446744073709551615), "18446744073709551615");
}
