use openchat_core::config::{
    import_api_url, local_storage_path, parse_u16, rls_context_sql, show_timestamps, tls_files,
    Config, ConfigError, EnvValues, EnvVar,
};
use openchat_core::device_auth::{
    bearer_token, get_client_ip, code_response, deep_link_response, pairing_rate_limit_header,
    rate_limited_text, require_session_deleted,
};
use openchat_core::paging::{ListExecutionsQuery, NotificationQueryParams, PaginationQuery};
use openchat_core::pins::{pins_after_add, pins_after_remove};
use openchat_core::pubsub::{all_event_channels, PubSubEvent};
use openchat_core::webhooks::{
    poster_avatar, poster_name, require_org_channel, require_own_webhook, webhook_url,
    WebhookPayload,
};

fn v(s: &str) -> EnvVar {
    EnvVar::Value(s.to_string())
}

fn env() -> EnvValues {
    EnvValues {
        database_url: v("postgres://db"),
        redis_url: v("redis://r"),
        tv_api_url: v("https://tv"),
        jwt_secret: v("s3cret"),
        port: EnvVar::Absent,
        host: EnvVar::Absent,
        enable_tls: EnvVar::Absent,
        tls_cert_path: EnvVar::Absent,
        tls_key_path: EnvVar::Absent,
        enable_rate_limiting: EnvVar::Absent,
    }
}

#[test]
fn configuration_defaults() {
    let c = Config::from_values(&env()).unwrap();
    assert_eq!(c.database_url, "postgres://db");
    assert_eq!(c.redis_url, "redis://r");
    assert_eq!(c.tv_api_url, "https://tv");
    assert_eq!(c.jwt_secret, "s3cret");
    assert_eq!(c.port, 8080);
    assert_eq!(c.host, "0.0.0.0");
    assert!(!c.enable_tls);
    assert!(c.enable_rate_limiting);
    assert!(c.tls_cert_path.is_none() && c.tls_key_path.is_none());
    assert_eq!(tls_files(&c).unwrap(), None);
}

#[test]
fn configuration_values() {
    let mut e = env();
    e.port = v("+443");
    e.host = v("127.0.0.1");
    e.enable_tls = v("true");
    e.tls_cert_path = v("/c.pem");
    e.tls_key_path = v("");
    e.enable_rate_limiting = v("false");
    let c = Config::from_values(&e).unwrap();
    assert_eq!((c.port, c.host.as_str()), (443, "127.0.0.1"));
    assert!(c.enable_tls && !c.enable_rate_limiting);
    assert_eq!(c.tls_cert_path.as_deref(), Some("/c.pem"));
    assert_eq!(c.tls_key_path, None);
    assert_eq!(tls_files(&c).unwrap_err(), "TLS_KEY_PATH must be set when ENABLE_TLS is true");
    let mut e = env();
    e.enable_tls = v("yes");
    e.enable_rate_limiting = v("TRUE");
    let c = Config::from_values(&e).unwrap();
    assert!(!c.enable_tls && c.enable_rate_limiting);
}

#[test]
fn configuration_needs_its_secrets() {
    let mut e = env();
    e.redis_url = EnvVar::Absent;
    assert_eq!(Config::from_values(&e).err(), Some(ConfigError::NotPresent));
    let mut e = env();
    e.jwt_secret = EnvVar::NotUnicode;
    assert_eq!(Config::from_values(&e).err(), Some(ConfigError::NotUnicode));
    let mut e = env();
    e.database_url = EnvVar::Absent;
    e.redis_url = EnvVar::NotUnicode;
    assert_eq!(Config::from_values(&e).err(), Some(ConfigError::NotPresent));
}

#[test]
fn ports_parse_like_u16() {
    for s in ["0", "8080", "65535", "+1", "007"] {
        assert_eq!(parse_u16(s), s.parse::<u16>().ok());
    }
    for s in ["", "+", "-1", "65536", "12a", " 80", "99999999999999999999"] {
        assert_eq!(parse_u16(s), None, "{}", s);
        assert!(s.parse::<u16>().is_err());
    }
}

#[test]
fn server_settings() {
    assert!(show_timestamps(&EnvVar::Absent));
    assert!(show_timestamps(&v("true")));
    assert!(!show_timestamps(&v("false")));
    assert_eq!(local_storage_path(&EnvVar::Absent), "/var/openchat/uploads");
    assert_eq!(local_storage_path(&v("/srv")), "/srv");
    assert_eq!(import_api_url(&EnvVar::NotUnicode), "https://api.titanium-vault.com");
    assert_eq!(
        rls_context_sql(1),
        "SET app.current_org_id = '00000000-0000-0000-0000-000000000001'"
    );
}

#[test]
fn device_pairing() {
    assert_eq!(get_client_ip(Some(" 1.2.3.4 , 10.0.0.1"), Some("9.9.9.9")), "1.2.3.4");
    assert_eq!(get_client_ip(Some(""), Some("9.9.9.9")), "");
    assert_eq!(get_client_ip(None, Some("9.9.9.9")), "9.9.9.9");
    assert_eq!(get_client_ip(None, None), "unknown");
    assert_eq!(rate_limited_text(false, 42), "Rate limit exceeded. Please try again in 42 seconds.");
    assert_eq!(rate_limited_text(true, 0), "Too many verification attempts. Please try again in 0 seconds.");
    assert_eq!(pairing_rate_limit_header(false), "5");
    assert_eq!(pairing_rate_limit_header(true), "10");
    assert_eq!(bearer_token(Some("Bearer abc.def")).unwrap(), "abc.def");
    assert_eq!(bearer_token(None).unwrap_err().message(), "Authentication error: Missing authorization header");
    assert_eq!(bearer_token(Some("Token abc")).unwrap_err().message(), "Authentication error: Invalid authorization format");
    let r = code_response("ABC123".into(), 1300, 1000);
    assert_eq!((r.code.as_str(), r.expires_in), ("ABC123", 300));
    let d = deep_link_response("cGF5".into());
    assert_eq!(d.payload, "cGF5");
    assert_eq!(d.deep_link, "openchat://login?payload=cGF5");
    assert!(require_session_deleted(true).is_ok());
    assert_eq!(require_session_deleted(false).unwrap_err().message(), "Not found: Device session not found");
}

#[test]
fn pages() {
    assert_eq!(PaginationQuery { limit: None, offset: None }.page(50), (50, 0));
    assert_eq!(PaginationQuery { limit: Some(500), offset: Some(7) }.page(50), (100, 7));
    assert_eq!(ListExecutionsQuery { limit: None, offset: None }.page(), (20, 0));
    assert_eq!(ListExecutionsQuery { limit: Some(30), offset: None }.page(), (30, 0));
    assert_eq!(NotificationQueryParams { limit: None, offset: None, unread_only: None }.page(), (50, 0, false));
    assert_eq!(NotificationQueryParams { limit: Some(101), offset: Some(1), unread_only: Some(true) }.page(), (100, 1, true));
}

#[test]
fn events_travel_on_their_channels() {
    let u = 1;
    assert_eq!(PubSubEvent::MessageCreated { channel_id: None, dm_id: Some(u), message_id: u, user_id: u }.channel(), "openchat:events:messages");
    assert_eq!(PubSubEvent::MessagePinned { channel_id: u, message_id: u, user_id: u }.channel(), "openchat:events:pins");
    assert_eq!(PubSubEvent::MessageUnpinned { channel_id: u, message_id: u, user_id: u }.channel(), "openchat:events:pins");
    assert_eq!(PubSubEvent::BookmarkAdded { user_id: u, message_id: u }.channel(), "openchat:events:bookmarks");
    assert_eq!(PubSubEvent::BookmarkRemoved { user_id: u, message_id: u }.channel(), "openchat:events:bookmarks");
    assert_eq!(PubSubEvent::ChannelUpdated { channel_id: u, org_id: u }.channel(), "openchat:events:channels");
    assert_eq!(PubSubEvent::MemberJoined { channel_id: u, user_id: u, org_id: u }.channel(), "openchat:events:channels");
    assert_eq!(PubSubEvent::MemberLeft { channel_id: u, user_id: u, org_id: u }.channel(), "openchat:events:channels");
    let p = PubSubEvent::PresenceChanged { user_id: u, org_id: u, status: "away".into() };
    assert_eq!(p.channel(), "openchat:events:presence");
    let all = all_event_channels();
    assert!(all.contains(&p.channel()));
    assert_eq!(all.len(), 5);
}

#[test]
fn pinned_cache_updates() {
    assert_eq!(pins_after_add(Some(vec![1, 2]), 3), vec![1, 2, 3]);
    assert_eq!(pins_after_add(None, 3), vec![3]);
    assert_eq!(pins_after_remove(Some(vec![1, 3, 2, 3]), 3), Some(vec![1, 2]));
    assert_eq!(pins_after_remove(None, 3), None);
    // pinning then unpinning leaves the cache as unpinning alone would
    let before = vec![4, 5];
    let after = pins_after_remove(Some(pins_after_add(Some(before.clone()), 6)), 6);
    assert_eq!(after, pins_after_remove(Some(before), 6));
}

#[test]
fn webhooks() {
    assert_eq!(webhook_url(true, "https://chat.example", "tok").as_deref(), Some("https://chat.example/api/hooks/tok"));
    assert_eq!(webhook_url(false, "https://chat.example", "tok"), None);
    assert!(require_own_webhook(1, 1).is_ok());
    assert_eq!(require_own_webhook(1, 2).unwrap_err().message(), "Not found: Webhook not found");
    assert_eq!(require_org_channel(1, 2).unwrap_err().message(), "Authorization error: Channel does not belong to your organization");
    let p = |u: Option<&str>, i: Option<&str>| WebhookPayload {
        text: "hi".into(),
        username: u.map(|x| x.to_string()),
        icon_url: i.map(|x| x.to_string()),
        channel: None,
    };
    assert_eq!(poster_name(&p(Some("Bot"), None), Some("Hook"), "Display"), "Bot");
    assert_eq!(poster_name(&p(None, None), Some("Hook"), "Display"), "Hook");
    assert_eq!(poster_name(&p(None, None), None, "Display"), "Display");
    assert_eq!(poster_avatar(&p(None, Some("a.png")), Some("b.png")).as_deref(), Some("a.png"));
    assert_eq!(poster_avatar(&p(None, None), Some("b.png")).as_deref(), Some("b.png"));
    assert_eq!(poster_avatar(&p(None, None), None), None);
}
