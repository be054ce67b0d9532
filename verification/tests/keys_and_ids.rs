use openchat_core::ids::others_than;
use openchat_core::keys::{
    cache_ttl_seconds, CachedData, METRICS_KEY,
    channel_cache_key, channel_members_cache_key, channel_membership_cache_key,
    channel_membership_pattern, channel_messages_cache_key, channel_pins_cache_key,
    channel_sections_cache_key, channel_unread_all_pattern, channel_unread_cache_key,
    dm_cache_key, dm_messages_cache_key, dm_participants_cache_key, dm_unread_all_pattern,
    dm_unread_cache_key, notification_count_cache_key, notification_prefs_cache_key,
    org_cache_key, org_channel_pattern, org_dm_pattern, org_messages_pattern,
    org_notification_pattern, org_pins_pattern, org_tv_users_pattern, org_unread_pattern,
    org_user_status_pattern, org_users_pattern, status_cache_key, tv_user_index_key,
    user_cache_key, user_dms_cache_key, user_groups_cache_key,
};

const ORG: u128 = 0x00112233_4455_6677_8899_aabbccddeeff;
const ORG_TEXT: &str = "00112233-4455-6677-8899-aabbccddeeff";
const A: u128 = 1;
const A_TEXT: &str = "00000000-0000-0000-0000-000000000001";
const B: u128 = 0xffffffff_ffff_ffff_ffff_ffffffffffff;
const B_TEXT: &str = "ffffffff-ffff-ffff-ffff-ffffffffffff";

fn k(mid: &str, id: &str) -> String {
    format!("openchat:org:{}{}{}", ORG_TEXT, mid, id)
}

/// A tiny glob matcher for `*` only, to check patterns against keys.
fn glob(p: &[u8], s: &[u8]) -> bool {
    if p.is_empty() {
        return s.is_empty();
    }
    if p[0] == b'*' {
        return glob(&p[1..], s) || (!s.is_empty() && glob(p, &s[1..]));
    }
    !s.is_empty() && s[0] == p[0] && glob(&p[1..], &s[1..])
}

#[test]
fn single_id_keys_have_their_exact_form() {
    assert_eq!(channel_sections_cache_key(ORG, A), k(":channel_sections:", A_TEXT));
    assert_eq!(channel_cache_key(ORG, A), k(":channel:", A_TEXT));
    assert_eq!(channel_members_cache_key(ORG, A), k(":channel_members:", A_TEXT));
    assert_eq!(dm_cache_key(ORG, B), k(":dm:", B_TEXT));
    assert_eq!(dm_participants_cache_key(ORG, B), k(":dm_participants:", B_TEXT));
    assert_eq!(user_dms_cache_key(ORG, A), k(":user_dms:", A_TEXT));
    assert_eq!(channel_messages_cache_key(ORG, A), k(":channel_messages:", A_TEXT));
    assert_eq!(dm_messages_cache_key(ORG, A), k(":dm_messages:", A_TEXT));
    assert_eq!(notification_prefs_cache_key(ORG, A), k(":notif_prefs:", A_TEXT));
    assert_eq!(notification_count_cache_key(ORG, A), k(":notification_count:", A_TEXT));
    assert_eq!(channel_pins_cache_key(ORG, A), k(":channel_pins:", A_TEXT));
    assert_eq!(status_cache_key(ORG, A), k(":user_status:", A_TEXT));
    assert_eq!(user_cache_key(ORG, A), k(":user:", A_TEXT));
    assert_eq!(tv_user_index_key(ORG, A), k(":tv_user:", A_TEXT));
}

#[test]
fn org_and_group_keys() {
    assert_eq!(org_cache_key(ORG), format!("openchat:org:{}", ORG_TEXT));
    assert_eq!(user_groups_cache_key(ORG), format!("openchat:org:{}:user_groups", ORG_TEXT));
    assert_eq!(org_cache_key(0), "openchat:org:00000000-0000-0000-0000-000000000000");
}

#[test]
fn two_id_keys_have_their_exact_form() {
    assert_eq!(
        channel_membership_cache_key(ORG, A, B),
        format!("openchat:org:{}:channel_membership:{}:{}", ORG_TEXT, A_TEXT, B_TEXT)
    );
    assert_eq!(
        channel_unread_cache_key(ORG, B, A),
        format!("openchat:org:{}:unread:channel:{}:{}", ORG_TEXT, B_TEXT, A_TEXT)
    );
    assert_eq!(
        dm_unread_cache_key(ORG, B, A),
        format!("openchat:org:{}:unread:dm:{}:{}", ORG_TEXT, B_TEXT, A_TEXT)
    );
}

#[test]
fn patterns_have_their_exact_form() {
    let p = format!("openchat:org:{}", ORG_TEXT);
    assert_eq!(org_channel_pattern(ORG), format!("{}:channel*", p));
    assert_eq!(org_dm_pattern(ORG), format!("{}:dm*", p));
    assert_eq!(org_messages_pattern(ORG), format!("{}:*_messages:*", p));
    assert_eq!(org_notification_pattern(ORG), format!("{}:notification_count:*", p));
    assert_eq!(org_pins_pattern(ORG), format!("{}:channel_pins:*", p));
    assert_eq!(org_unread_pattern(ORG), format!("{}:unread:*", p));
    assert_eq!(org_user_status_pattern(ORG), format!("{}:user_status:*", p));
    assert_eq!(org_users_pattern(ORG), format!("{}:user:*", p));
    assert_eq!(org_tv_users_pattern(ORG), format!("{}:tv_user:*", p));
    assert_eq!(
        channel_membership_pattern(ORG, A),
        format!("{}:channel_membership:{}:*", p, A_TEXT)
    );
    assert_eq!(channel_unread_all_pattern(ORG, A), format!("{}:unread:channel:*:{}", p, A_TEXT));
    assert_eq!(dm_unread_all_pattern(ORG, A), format!("{}:unread:dm:*:{}", p, A_TEXT));
}

#[test]
fn invalidation_patterns_reach_their_keys() {
    let m = |p: String, key: String| glob(p.as_bytes(), key.as_bytes());
    assert!(m(org_notification_pattern(ORG), notification_count_cache_key(ORG, B)));
    assert!(m(org_pins_pattern(ORG), channel_pins_cache_key(ORG, A)));
    assert!(m(org_user_status_pattern(ORG), status_cache_key(ORG, A)));
    assert!(m(org_users_pattern(ORG), user_cache_key(ORG, A)));
    assert!(m(org_tv_users_pattern(ORG), tv_user_index_key(ORG, A)));
    assert!(m(org_channel_pattern(ORG), channel_cache_key(ORG, A)));
    assert!(m(org_channel_pattern(ORG), channel_members_cache_key(ORG, A)));
    assert!(m(org_channel_pattern(ORG), channel_membership_cache_key(ORG, A, B)));
    assert!(m(org_channel_pattern(ORG), channel_messages_cache_key(ORG, A)));
    assert!(m(org_dm_pattern(ORG), dm_cache_key(ORG, A)));
    assert!(m(org_dm_pattern(ORG), dm_participants_cache_key(ORG, A)));
    assert!(m(org_messages_pattern(ORG), channel_messages_cache_key(ORG, A)));
    assert!(m(org_messages_pattern(ORG), dm_messages_cache_key(ORG, A)));
    assert!(m(channel_membership_pattern(ORG, A), channel_membership_cache_key(ORG, A, B)));
    assert!(m(channel_unread_all_pattern(ORG, A), channel_unread_cache_key(ORG, B, A)));
    assert!(m(dm_unread_all_pattern(ORG, A), dm_unread_cache_key(ORG, B, A)));
    assert!(m(org_unread_pattern(ORG), channel_unread_cache_key(ORG, B, A)));
    assert!(m(org_unread_pattern(ORG), dm_unread_cache_key(ORG, B, A)));
    // a channel's membership pattern does not reach another channel's checks
    assert!(!m(channel_membership_pattern(ORG, A), channel_membership_cache_key(ORG, B, A)));
}

#[test]
fn patterns_stay_in_their_organization() {
    let m = |p: String, key: String| glob(p.as_bytes(), key.as_bytes());
    assert!(!m(org_channel_pattern(ORG), channel_cache_key(A, A)));
    assert!(!m(org_unread_pattern(A), channel_unread_cache_key(ORG, A, B)));
    assert!(!m(org_users_pattern(B), user_cache_key(ORG, A)));
}

#[test]
fn others_than_drops_every_occurrence_and_keeps_order() {
    assert_eq!(others_than(&vec![3, 1, 2, 1, 4], 1), vec![3, 2, 4]);
    assert_eq!(others_than(&vec![], 1), Vec::<u128>::new());
    assert_eq!(others_than(&vec![5, 5], 5), Vec::<u128>::new());
    assert_eq!(others_than(&vec![7, 8], 9), vec![7, 8]);
}

#[test]
fn cache_lifetimes() {
    assert_eq!(cache_ttl_seconds(CachedData::Messages), 120);
    assert_eq!(cache_ttl_seconds(CachedData::Unread), 60);
    assert_eq!(cache_ttl_seconds(CachedData::Organization), 3600);
    assert_eq!(cache_ttl_seconds(CachedData::User), 3600);
    assert_eq!(cache_ttl_seconds(CachedData::Metrics), 86400);
    for k in [CachedData::ChannelSections, CachedData::Channel, CachedData::Dm, CachedData::NotificationPrefs,
              CachedData::NotificationCount, CachedData::Pins, CachedData::UserGroups, CachedData::UserStatus, CachedData::Emoji] {
        assert_eq!(cache_ttl_seconds(k), 300);
    }
    assert_eq!(METRICS_KEY, "openchat:cache:metrics");
}
