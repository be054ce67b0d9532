//! Redis cache keys and the key patterns that invalidation deletes by.
use vstd::prelude::*;
use crate::ids::{uuid_string, uuid_text};

verus! {

/// `openchat:org:{org_id}`: the start of every organization-scoped key.
pub open spec fn org_prefix(org_id: u128) -> Seq<char> {
    "openchat:org:"@ + uuid_text(org_id)
}

/// An organization-scoped key: `openchat:org:{org_id}{mid}{id}`.
pub open spec fn org_key_spec(org_id: u128, mid: Seq<char>, id: u128) -> Seq<char> {
    org_prefix(org_id) + mid + uuid_text(id)
}

/// An organization-scoped key with two identifiers: `openchat:org:{org_id}{mid}{a}:{b}`.
pub open spec fn org_key2_spec(org_id: u128, mid: Seq<char>, a: u128, b: u128) -> Seq<char> {
    org_prefix(org_id) + mid + uuid_text(a) + ":"@ + uuid_text(b)
}

fn org_prefix_string(org_id: u128) -> (s: String)
    ensures
        s@ == org_prefix(org_id),
{
    let mut s = String::from_str("openchat:org:");
    let u = uuid_string(org_id);
    s.append(u.as_str());
    s
}

fn org_key(org_id: u128, mid: &str, id: u128) -> (s: String)
    ensures
        s@ == org_key_spec(org_id, mid@, id),
{
    let mut s = org_prefix_string(org_id);
    s.append(mid);
    let u = uuid_string(id);
    s.append(u.as_str());
    s
}

fn org_key2(org_id: u128, mid: &str, a: u128, b: u128) -> (s: String)
    ensures
        s@ == org_key2_spec(org_id, mid@, a, b),
{
    let mut s = org_key(org_id, mid, a);
    s.append(":");
    let u = uuid_string(b);
    s.append(u.as_str());
    s
}

fn org_pattern(org_id: u128, tail: &str) -> (s: String)
    ensures
        s@ == org_prefix(org_id) + tail@,
{
    let mut s = org_prefix_string(org_id);
    s.append(tail);
    s
}

/// Key of a user's channel sections: `openchat:org:{org_id}:channel_sections:{user_id}`.
pub fn channel_sections_cache_key(org_id: u128, user_id: u128) -> (k: String)
    ensures
        k@ == org_key_spec(org_id, ":channel_sections:"@, user_id),
{
    org_key(org_id, ":channel_sections:", user_id)
}

/// Key of a channel: `openchat:org:{org_id}:channel:{channel_id}`.
pub fn channel_cache_key(org_id: u128, channel_id: u128) -> (k: String)
    ensures
        k@ == org_key_spec(org_id, ":channel:"@, channel_id),
{
    org_key(org_id, ":channel:", channel_id)
}

/// Key of a channel's members: `openchat:org:{org_id}:channel_members:{channel_id}`.
pub fn channel_members_cache_key(org_id: u128, channel_id: u128) -> (k: String)
    ensures
        k@ == org_key_spec(org_id, ":channel_members:"@, channel_id),
{
    org_key(org_id, ":channel_members:", channel_id)
}

/// Key of a membership check:
/// `openchat:org:{org_id}:channel_membership:{channel_id}:{user_id}`.
pub fn channel_membership_cache_key(org_id: u128, channel_id: u128, user_id: u128) -> (k: String)
    ensures
        k@ == org_key2_spec(org_id, ":channel_membership:"@, channel_id, user_id),
{
    org_key2(org_id, ":channel_membership:", channel_id, user_id)
}

/// Key of a DM: `openchat:org:{org_id}:dm:{dm_id}`.
pub fn dm_cache_key(org_id: u128, dm_id: u128) -> (k: String)
    ensures
        k@ == org_key_spec(org_id, ":dm:"@, dm_id),
{
    org_key(org_id, ":dm:", dm_id)
}

/// Key of a DM's participants: `openchat:org:{org_id}:dm_participants:{dm_id}`.
pub fn dm_participants_cache_key(org_id: u128, dm_id: u128) -> (k: String)
    ensures
        k@ == org_key_spec(org_id, ":dm_participants:"@, dm_id),
{
    org_key(org_id, ":dm_participants:", dm_id)
}

/// Key of a user's DM list: `openchat:org:{org_id}:user_dms:{user_id}`.
pub fn user_dms_cache_key(org_id: u128, user_id: u128) -> (k: String)
    ensures
        k@ == org_key_spec(org_id, ":user_dms:"@, user_id),
{
    org_key(org_id, ":user_dms:", user_id)
}

/// Key of a channel's messages: `openchat:org:{org_id}:channel_messages:{channel_id}`.
pub fn channel_messages_cache_key(org_id: u128, channel_id: u128) -> (k: String)
    ensures
        k@ == org_key_spec(org_id, ":channel_messages:"@, channel_id),
{
    org_key(org_id, ":channel_messages:", channel_id)
}

/// Key of a DM's messages: `openchat:org:{org_id}:dm_messages:{dm_id}`.
pub fn dm_messages_cache_key(org_id: u128, dm_id: u128) -> (k: String)
    ensures
        k@ == org_key_spec(org_id, ":dm_messages:"@, dm_id),
{
    org_key(org_id, ":dm_messages:", dm_id)
}

/// Key of a user's notification preferences: `openchat:org:{org_id}:notif_prefs:{user_id}`.
pub fn notification_prefs_cache_key(org_id: u128, user_id: u128) -> (k: String)
    ensures
        k@ == org_key_spec(org_id, ":notif_prefs:"@, user_id),
{
    org_key(org_id, ":notif_prefs:", user_id)
}

/// Key of a user's unread notification count:
/// `openchat:org:{org_id}:notification_count:{user_id}`.
pub fn notification_count_cache_key(org_id: u128, user_id: u128) -> (k: String)
    ensures
        k@ == org_key_spec(org_id, ":notification_count:"@, user_id),
{
    org_key(org_id, ":notification_count:", user_id)
}

/// Key of an organization: `openchat:org:{org_id}`.
pub fn org_cache_key(org_id: u128) -> (k: String)
    ensures
        k@ == org_prefix(org_id),
{
    org_prefix_string(org_id)
}

/// Key of a channel's pins: `openchat:org:{org_id}:channel_pins:{channel_id}`.
pub fn channel_pins_cache_key(org_id: u128, channel_id: u128) -> (k: String)
    ensures
        k@ == org_key_spec(org_id, ":channel_pins:"@, channel_id),
{
    org_key(org_id, ":channel_pins:", channel_id)
}

/// Key of a user's unread count in a channel:
/// `openchat:org:{org_id}:unread:channel:{user_id}:{channel_id}`.
pub fn channel_unread_cache_key(org_id: u128, user_id: u128, channel_id: u128) -> (k: String)
    ensures
        k@ == org_key2_spec(org_id, ":unread:channel:"@, user_id, channel_id),
{
    org_key2(org_id, ":unread:channel:", user_id, channel_id)
}

/// Key of a user's unread count in a DM: `openchat:org:{org_id}:unread:dm:{user_id}:{dm_id}`.
pub fn dm_unread_cache_key(org_id: u128, user_id: u128, dm_id: u128) -> (k: String)
    ensures
        k@ == org_key2_spec(org_id, ":unread:dm:"@, user_id, dm_id),
{
    org_key2(org_id, ":unread:dm:", user_id, dm_id)
}

/// Key of an organization's user groups: `openchat:org:{org_id}:user_groups`.
pub fn user_groups_cache_key(org_id: u128) -> (k: String)
    ensures
        k@ == org_prefix(org_id) + ":user_groups"@,
{
    org_pattern(org_id, ":user_groups")
}

/// Key of a user's status: `openchat:org:{org_id}:user_status:{user_id}`.
pub fn status_cache_key(org_id: u128, user_id: u128) -> (k: String)
    ensures
        k@ == org_key_spec(org_id, ":user_status:"@, user_id),
{
    org_key(org_id, ":user_status:", user_id)
}

/// Key of a user: `openchat:org:{org_id}:user:{user_id}`.
pub fn user_cache_key(org_id: u128, user_id: u128) -> (k: String)
    ensures
        k@ == org_key_spec(org_id, ":user:"@, user_id),
{
    org_key(org_id, ":user:", user_id)
}

/// Key of the index from an identity-provider user: `openchat:org:{org_id}:tv_user:{tv_user_id}`.
pub fn tv_user_index_key(org_id: u128, tv_user_id: u128) -> (k: String)
    ensures
        k@ == org_key_spec(org_id, ":tv_user:"@, tv_user_id),
{
    org_key(org_id, ":tv_user:", tv_user_id)
}

/// Pattern of every membership check of a channel:
/// `openchat:org:{org_id}:channel_membership:{channel_id}:*`.
pub fn channel_membership_pattern(org_id: u128, channel_id: u128) -> (p: String)
    ensures
        p@ == org_key_spec(org_id, ":channel_membership:"@, channel_id) + ":*"@,
{
    let mut s = org_key(org_id, ":channel_membership:", channel_id);
    s.append(":*");
    s
}

/// Pattern of every channel entry of an organization: `openchat:org:{org_id}:channel*`.
pub fn org_channel_pattern(org_id: u128) -> (p: String)
    ensures
        p@ == org_prefix(org_id) + ":channel*"@,
{
    org_pattern(org_id, ":channel*")
}

/// Pattern of every DM entry of an organization: `openchat:org:{org_id}:dm*`.
pub fn org_dm_pattern(org_id: u128) -> (p: String)
    ensures
        p@ == org_prefix(org_id) + ":dm*"@,
{
    org_pattern(org_id, ":dm*")
}

/// Pattern of every message list of an organization: `openchat:org:{org_id}:*_messages:*`.
pub fn org_messages_pattern(org_id: u128) -> (p: String)
    ensures
        p@ == org_prefix(org_id) + ":*_messages:*"@,
{
    org_pattern(org_id, ":*_messages:*")
}

/// Pattern of every notification count of an organization:
/// `openchat:org:{org_id}:notification_count:*`.
pub fn org_notification_pattern(org_id: u128) -> (p: String)
    ensures
        p@ == org_prefix(org_id) + ":notification_count:*"@,
{
    org_pattern(org_id, ":notification_count:*")
}

/// Pattern of every pin list of an organization: `openchat:org:{org_id}:channel_pins:*`.
pub fn org_pins_pattern(org_id: u128) -> (p: String)
    ensures
        p@ == org_prefix(org_id) + ":channel_pins:*"@,
{
    org_pattern(org_id, ":channel_pins:*")
}

/// Pattern of every member's unread count in a channel:
/// `openchat:org:{org_id}:unread:channel:*:{channel_id}`.
pub fn channel_unread_all_pattern(org_id: u128, channel_id: u128) -> (p: String)
    ensures
        p@ == org_key_spec(org_id, ":unread:channel:*:"@, channel_id),
{
    org_key(org_id, ":unread:channel:*:", channel_id)
}

/// Pattern of every participant's unread count in a DM:
/// `openchat:org:{org_id}:unread:dm:*:{dm_id}`.
pub fn dm_unread_all_pattern(org_id: u128, dm_id: u128) -> (p: String)
    ensures
        p@ == org_key_spec(org_id, ":unread:dm:*:"@, dm_id),
{
    org_key(org_id, ":unread:dm:*:", dm_id)
}

/// Pattern of every unread count of an organization: `openchat:org:{org_id}:unread:*`.
pub fn org_unread_pattern(org_id: u128) -> (p: String)
    ensures
        p@ == org_prefix(org_id) + ":unread:*"@,
{
    org_pattern(org_id, ":unread:*")
}

/// Pattern of every user status of an organization: `openchat:org:{org_id}:user_status:*`.
pub fn org_user_status_pattern(org_id: u128) -> (p: String)
    ensures
        p@ == org_prefix(org_id) + ":user_status:*"@,
{
    org_pattern(org_id, ":user_status:*")
}

/// Pattern of every cached user of an organization: `openchat:org:{org_id}:user:*`.
pub fn org_users_pattern(org_id: u128) -> (p: String)
    ensures
        p@ == org_prefix(org_id) + ":user:*"@,
{
    org_pattern(org_id, ":user:*")
}

/// Pattern of every identity-provider index entry of an organization:
/// `openchat:org:{org_id}:tv_user:*`.
pub fn org_tv_users_pattern(org_id: u128) -> (p: String)
    ensures
        p@ == org_prefix(org_id) + ":tv_user:*"@,
{
    org_pattern(org_id, ":tv_user:*")
}

/// The Redis hash that holds the cache hit and miss counters.
pub const METRICS_KEY: &'static str = "openchat:cache:metrics";

/// The kinds of data kept in the cache, each with its own lifetime.
#[derive(Debug, Clone, Copy, PartialEq, Eq)]
pub enum CachedData {
    ChannelSections,
    Channel,
    Dm,
    Messages,
    NotificationPrefs,
    NotificationCount,
    Organization,
    Pins,
    Unread,
    UserGroups,
    UserStatus,
    User,
    Emoji,
    Metrics,
}

/// How long each kind of cached data lives, in seconds.
pub open spec fn ttl_of(kind: CachedData) -> u64 {
    match kind {
        CachedData::Messages => 120,
        CachedData::Unread => 60,
        CachedData::Organization => 3600,
        CachedData::User => 3600,
        CachedData::Metrics => 86400,
        _ => 300,
    }
}

/// How long a cached entry of this kind lives, in seconds: two minutes for
/// message pages, one for unread counts, an hour for organizations and users,
/// a day for the metrics, five minutes for everything else.
pub fn cache_ttl_seconds(kind: CachedData) -> (t: u64)
    ensures
        t == ttl_of(kind),
{
    match kind {
        CachedData::Messages => 120,
        CachedData::Unread => 60,
        CachedData::Organization => 3600,
        CachedData::User => 3600,
        CachedData::Metrics => 86400,
        _ => 300,
    }
}

} // verus!
