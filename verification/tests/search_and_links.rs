use openchat_core::errors::ApiError;
use openchat_core::link_preview::{
    check_preview_request, empty_preview, extract_meta_tag, extract_title_tag, fetch_status_error,
    is_html_content_type, is_valid_url, preview_from_html, LinkPreviewRequest,
};
use openchat_core::search::{
    build_search_sql, check_search_query, require_search_target, default_limit, default_scope, resolve_scope,
    search_cache_key, search_cache_key_from_hash, search_limit, to_tsquery_text, SearchFilters,
    SearchScope,
};

#[test]
fn search_defaults() {
    assert_eq!(default_scope(), "all");
    assert_eq!(default_limit(), 50);
    assert_eq!(search_limit(500), 100);
    assert_eq!(search_limit(100), 100);
    assert_eq!(search_limit(7), 7);
}

#[test]
fn parse_extracts_every_filter() {
    let f = SearchFilters::parse(
        "hello from:@alice in:#general before:2024-01-15 after:2024-01-01 world",
    );
    assert_eq!(f.text_query, "hello world");
    assert_eq!(f.from_user.as_deref(), Some("alice"));
    assert_eq!(f.in_channel.as_deref(), Some("general"));
    assert_eq!(f.before_date.as_deref(), Some("2024-01-15T23:59:59+00:00"));
    assert_eq!(f.after_date.as_deref(), Some("2024-01-01T00:00:00+00:00"));
}

#[test]
fn parse_without_filters_keeps_words() {
    let f = SearchFilters::parse("  just   some\twords ");
    assert_eq!(f.text_query, "just some words");
    assert!(f.from_user.is_none() && f.in_channel.is_none());
    assert!(f.before_date.is_none() && f.after_date.is_none());
    let g = SearchFilters::parse("from:bob");
    assert_eq!(g.text_query, "");
    assert_eq!(g.from_user.as_deref(), Some("bob"));
}

#[test]
fn parse_cuts_an_invalid_date_without_a_bound() {
    let f = SearchFilters::parse("report before:2024-13-45");
    assert_eq!(f.text_query, "report");
    assert!(f.before_date.is_none());
}

#[test]
fn tsquery_prefix_matches_each_word() {
    assert_eq!(to_tsquery_text("hello  world"), "hello:* & world:*");
    assert_eq!(to_tsquery_text("one"), "one:*");
    assert_eq!(to_tsquery_text("   "), "");
}

#[test]
fn blank_queries_are_refused() {
    assert!(check_search_query("find me").is_ok());
    let e = check_search_query(" \t ").unwrap_err();
    assert_eq!(e.status_code(), 400);
    assert_eq!(e.message(), "Bad request: Search query cannot be empty");
}

#[test]
fn scopes_resolve_or_are_refused() {
    assert_eq!(resolve_scope("channel", Some(5), None).unwrap(), SearchScope::Channel(5));
    assert_eq!(resolve_scope("dm", None, Some(6)).unwrap(), SearchScope::Dm(6));
    assert_eq!(resolve_scope("all", Some(5), Some(6)).unwrap(), SearchScope::All);
    let e = resolve_scope("channel", None, Some(6)).unwrap_err();
    assert_eq!(e.message(), "Bad request: channel_id is required when scope is 'channel'");
    let e = resolve_scope("dm", Some(5), None).unwrap_err();
    assert_eq!(e.message(), "Bad request: dm_id is required when scope is 'dm'");
    let e = resolve_scope("everything", None, None).unwrap_err();
    assert_eq!(e.message(), "Bad request: Invalid scope. Must be 'channel', 'dm', or 'all'");
}

#[test]
fn search_sql_numbers_placeholders_in_order() {
    let f = SearchFilters::parse("cats from:@ann in:#pets after:2024-02-03");
    let sql = build_search_sql(&SearchScope::All, &f);
    assert_eq!(
        sql.bindings,
        vec![
            "cats:*".to_string(),
            "ann".to_string(),
            "pets".to_string(),
            "2024-02-03T00:00:00+00:00".to_string()
        ]
    );
    assert!(sql.query.contains(" AND m.content_tsv @@ to_tsquery('english', $2)"));
    assert!(sql.query.contains(" AND u.username ILIKE $3"));
    assert!(sql.query.contains(" AND c.name ILIKE $4"));
    assert!(sql.query.contains(" AND m.created_at > $5"));
    assert!(sql.query.ends_with(" ORDER BY m.created_at DESC LIMIT $6"));
    assert!(!sql.count.contains("LIMIT"));
    assert!(sql.count.contains("SELECT COUNT(*) FROM messages m"));
}

#[test]
fn channel_name_filter_only_applies_to_all_scope() {
    let f = SearchFilters::parse("in:#pets");
    let sql = build_search_sql(&SearchScope::Channel(9), &f);
    assert!(sql.bindings.is_empty());
    assert!(sql.query.contains("WHERE m.channel_id = $1"));
    assert!(sql.query.ends_with("LIMIT $2"));
}

#[test]
fn search_cache_keys() {
    assert_eq!(search_cache_key_from_hash("org-1", 42), "openchat:search:org-1:42");
    let a = search_cache_key("org-1", "q", "all", None, None);
    let b = search_cache_key("org-1", "q", "all", None, None);
    let c = search_cache_key("org-1", "q2", "all", None, None);
    assert_eq!(a, b);
    assert_ne!(a, c);
    assert!(a.starts_with("openchat:search:org-1:"));
}

#[test]
fn preview_urls() {
    assert!(is_valid_url("https://example.com"));
    assert!(is_valid_url("http://example.com"));
    assert!(!is_valid_url("ftp://example.com"));
    assert!(!is_valid_url("example.com"));
    let ok = LinkPreviewRequest { url: "https://a.b".to_string() };
    assert!(check_preview_request(&ok).is_ok());
    let bad = LinkPreviewRequest { url: "javascript:alert(1)".to_string() };
    let e = check_preview_request(&bad).unwrap_err();
    assert!(matches!(e, ApiError::BadRequest(ref m) if m == "Invalid URL format"));
    assert_eq!(fetch_status_error("404").message(), "Bad request: Failed to fetch URL: HTTP 404");
    assert!(is_html_content_type("text/html; charset=utf-8"));
    assert!(!is_html_content_type("application/json"));
}

#[test]
fn meta_tags_are_read_in_three_forms() {
    let html = r#"<html><head>
        <meta property="og:title" content="OG Title">
        <meta name="description" content='Plain description'>
        <meta content="https://img/x.png" property="og:image">
        <title>  Page Title  </title></head></html>"#;
    assert_eq!(extract_meta_tag(html, "og:title").as_deref(), Some("OG Title"));
    assert_eq!(extract_meta_tag(html, "description").as_deref(), Some("Plain description"));
    assert_eq!(extract_meta_tag(html, "og:image").as_deref(), Some("https://img/x.png"));
    assert_eq!(extract_meta_tag(html, "og:site_name"), None);
    assert_eq!(extract_title_tag(html).as_deref(), Some("Page Title"));
    // the property is matched literally, not as a pattern
    assert_eq!(extract_meta_tag(html, "og.title"), None);
}

#[test]
fn preview_falls_back_to_title_and_description() {
    let html = r#"<title>Only Title</title><meta name="description" content="Desc">"#;
    let p = preview_from_html("https://x.y", html);
    assert_eq!(p.url, "https://x.y");
    assert_eq!(p.title.as_deref(), Some("Only Title"));
    assert_eq!(p.description.as_deref(), Some("Desc"));
    assert_eq!(p.image, None);
    assert_eq!(p.site_name, None);
    let e = empty_preview("https://z");
    assert_eq!(e.url, "https://z");
    assert!(e.title.is_none() && e.description.is_none());
}

#[test]
fn searches_stay_in_the_organization() {
    assert!(require_search_target(true, &SearchScope::Channel(1)).is_ok());
    assert!(require_search_target(false, &SearchScope::All).is_ok());
    assert_eq!(require_search_target(false, &SearchScope::Channel(1)).unwrap_err().message(), "Not found: Channel not found");
    assert_eq!(require_search_target(false, &SearchScope::Dm(1)).unwrap_err().message(), "Not found: DM not found");
}
