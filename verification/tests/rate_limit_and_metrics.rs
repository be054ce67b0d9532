use openchat_core::metrics::{
    cache_type_label, metric_field, metrics_from_fields, reported_types, set_field, type_summary,
    CacheMetrics, CacheType,
};
use openchat_core::rate_limit::{
    denied_outcome, fail_open, incremented_outcome, rate_limit_cache_key,
    rate_limit_cache_key_by_ip, rate_limit_step, started_outcome, RateLimitConfig, RateLimitStep,
    RateLimitType,
};

#[test]
fn rate_limit_kinds_have_their_limits() {
    let c = RateLimitType::ApiRequest.config();
    assert_eq!((c.max_requests, c.window_seconds), (200, 1));
    let c = RateLimitType::Message.config();
    assert_eq!((c.max_requests, c.window_seconds), (30, 1));
    let c = RateLimitType::WebSocket.config();
    assert_eq!((c.max_requests, c.window_seconds), (1000, 60));
    let c = RateLimitType::DevicePairingGenerate.config();
    assert_eq!((c.max_requests, c.window_seconds), (5, 60));
    let c = RateLimitType::DevicePairingVerify.config();
    assert_eq!((c.max_requests, c.window_seconds), (10, 60));
    let c = RateLimitConfig::new(7, 9);
    assert_eq!((c.max_requests, c.window_seconds), (7, 9));
}

#[test]
fn rate_limit_keys() {
    assert_eq!(RateLimitType::ApiRequest.key_suffix(), "api");
    assert_eq!(RateLimitType::Message.key_suffix(), "message");
    assert_eq!(RateLimitType::WebSocket.key_suffix(), "ws");
    assert_eq!(RateLimitType::DevicePairingGenerate.key_suffix(), "device_pair_gen");
    assert_eq!(RateLimitType::DevicePairingVerify.key_suffix(), "device_pair_verify");
    assert_eq!(
        rate_limit_cache_key(1, &RateLimitType::Message),
        "openchat:ratelimit:message:00000000-0000-0000-0000-000000000001"
    );
    assert_eq!(
        rate_limit_cache_key_by_ip("10.0.0.1", &RateLimitType::DevicePairingVerify),
        "openchat:ratelimit:device_pair_verify:ip:10.0.0.1"
    );
}

#[test]
fn rate_limit_steps_and_outcomes() {
    let c = RateLimitConfig::new(3, 60);
    assert_eq!(rate_limit_step(None, &c), RateLimitStep::Start);
    assert_eq!(rate_limit_step(Some(2), &c), RateLimitStep::Increment);
    assert_eq!(rate_limit_step(Some(3), &c), RateLimitStep::Deny);
    assert_eq!(rate_limit_step(Some(9), &c), RateLimitStep::Deny);
    assert_eq!(fail_open(&c), (true, 3, 60));
    assert_eq!(denied_outcome(Some(42)), (false, 0, 42));
    assert_eq!(denied_outcome(Some(-2)), (false, 0, 0));
    assert_eq!(denied_outcome(None), (false, 0, 0));
    assert_eq!(incremented_outcome(&c, 2, Some(10)), (true, 1, 10));
    assert_eq!(incremented_outcome(&c, 5, Some(10)), (true, 0, 10));
    assert_eq!(started_outcome(&c), (true, 2, 60));
    assert_eq!(started_outcome(&RateLimitConfig::new(0, 5)), (true, 0, 5));
}

#[test]
fn a_window_admits_exactly_its_limit() {
    // Simulate a counter in one window: Redis doing what each step asks.
    let c = RateLimitConfig::new(3, 60);
    let mut counter: Option<u32> = None;
    let mut allowed = 0;
    for _ in 0..10 {
        match rate_limit_step(counter, &c) {
            RateLimitStep::Deny => {}
            RateLimitStep::Increment => {
                counter = Some(counter.unwrap() + 1);
                allowed += 1;
            }
            RateLimitStep::Start => {
                counter = Some(1);
                allowed += 1;
            }
        }
    }
    assert_eq!(allowed, 3);
    assert_eq!(counter, Some(3));
}

fn sample() -> CacheMetrics {
    let mut m = CacheMetrics::default();
    m.channels_hits = 1;
    m.channels_misses = 2;
    m.channel_members_hits = 3;
    m.dms_hits = 4;
    m.dm_participants_hits = 5;
    m.users_hits = 6;
    m.users_misses = 7;
    m.messages_hits = 8;
    m.read_status_hits = 9;
    m.notifications_hits = 10;
    m.organizations_hits = 11;
    m.organizations_misses = 12;
    m.tokens_hits = 13;
    m.tokens_misses = 14;
    m
}

#[test]
fn metric_totals() {
    let m = sample();
    assert_eq!(m.total_hits(), 1 + 3 + 4 + 5 + 6 + 8 + 9 + 10 + 11 + 13);
    assert_eq!(m.total_misses(), 2 + 7 + 12 + 14);
    assert_eq!(m.total_operations(), m.total_hits() + m.total_misses());
    assert_eq!(CacheMetrics::default().total_operations(), 0);
}

#[test]
fn metric_fields_round_trip() {
    let mut m = CacheMetrics::default();
    let f = metric_field(CacheType::DmParticipants, false);
    assert_eq!(f, "dm_participants_misses");
    set_field(&mut m, f, 41);
    assert_eq!(type_summary(&m, CacheType::DmParticipants), (0, 41, 41));
    assert_eq!(m.total_misses(), 41);
    set_field(&mut m, "no_such_field", 5);
    assert_eq!(m.total_operations(), 41);
    assert_eq!(metric_field(CacheType::Tokens, true), "tokens_hits");
}

#[test]
fn metrics_from_hash_fields() {
    let pairs = vec![
        ("channels_hits".to_string(), 5),
        ("tokens_misses".to_string(), 2),
        ("channels_hits".to_string(), 7),
        ("bogus".to_string(), 100),
    ];
    let m = metrics_from_fields(&pairs);
    assert_eq!(m.channels_hits, 7);
    assert_eq!(m.tokens_misses, 2);
    assert_eq!(m.total_operations(), 9);
}

#[test]
fn metric_report_lists_eight_kinds_with_labels() {
    let kinds = reported_types();
    assert_eq!(kinds.len(), 8);
    let labels: Vec<&str> = kinds.iter().map(|k| cache_type_label(*k)).collect();
    assert_eq!(
        labels,
        vec![
            "channels",
            "channel_members",
            "dms",
            "dm_participants",
            "users",
            "messages",
            "read_status",
            "notifications"
        ]
    );
    assert_eq!(cache_type_label(CacheType::Organizations), "organizations");
    assert_eq!(cache_type_label(CacheType::Tokens), "tokens");
    assert_eq!(type_summary(&sample(), CacheType::Users), (6, 7, 13));
}
