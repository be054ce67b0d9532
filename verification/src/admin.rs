//! Organization-level settings and per-user tools: retention policies and legal
//! holds, end-to-end encryption devices, channel sections, reminders, bookmarks
//! and read markers.
use vstd::prelude::*;
use crate::errors::{bad_request, concat2, forbidden, not_found, ApiError, ApiErrorView};
use crate::patterns::opt_view;
use crate::text::{is_blank, is_blank_spec, str_eq};
use vstd::utf8::{decode_utf8, encode_utf8, encode_utf8_decode_utf8, is_char_boundary};

verus! {

/// Why a retention policy is refused: its type is neither `messages` nor
/// `files`, or it keeps data for no day at all.
pub open spec fn retention_policy_error(policy_type: Seq<char>, retention_days: i32) -> Option<
    Seq<char>,
> {
    if policy_type != "messages"@ && policy_type != "files"@ {
        Some("policy_type must be 'messages' or 'files'"@)
    } else if retention_days <= 0 {
        Some("retention_days must be greater than 0"@)
    } else {
        None
    }
}

/// Checks a retention policy.
pub fn check_retention_policy(policy_type: &str, retention_days: i32) -> (r: Result<(), ApiError>)
    ensures
        match retention_policy_error(policy_type@, retention_days) {
            Some(msg) => r matches Err(e) && e@ == ApiErrorView::BadRequest(msg),
            None => r is Ok,
        },
{
    if !str_eq(policy_type, "messages") && !str_eq(policy_type, "files") {
        return Err(bad_request("policy_type must be 'messages' or 'files'"));
    }
    if retention_days <= 0 {
        return Err(bad_request("retention_days must be greater than 0"));
    }
    Ok(())
}

/// A channel has at most one active legal hold: a new one is refused while one is active.
pub fn check_new_legal_hold(channel_exists: bool, has_active_hold: bool) -> (r: Result<
    (),
    ApiError,
>)
    ensures
        !channel_exists ==> (r matches Err(e) && e@ == ApiErrorView::NotFound(
            "Channel not found"@,
        )),
        channel_exists && has_active_hold ==> (r matches Err(e) && e@ == ApiErrorView::BadRequest(
            "Channel already has an active legal hold"@,
        )),
        channel_exists && !has_active_hold ==> r is Ok,
{
    if !channel_exists {
        return Err(not_found("Channel not found"));
    }
    if has_active_hold {
        return Err(bad_request("Channel already has an active legal hold"));
    }
    Ok(())
}

/// Lifting a legal hold needs one to be active: `rows_affected` holds were lifted.
pub fn check_hold_lifted(rows_affected: u64) -> (r: Result<(), ApiError>)
    ensures
        rows_affected > 0 ==> r is Ok,
        rows_affected == 0 ==> (r matches Err(e) && e@ == ApiErrorView::NotFound(
            "No active legal hold found for this channel"@,
        )),
{
    if rows_affected == 0 {
        return Err(not_found("No active legal hold found for this channel"));
    }
    Ok(())
}

/// Why a device is refused for end-to-end encryption: its identifier must take
/// 1 to 64 bytes, and both its identity and signing keys must be given.
pub open spec fn device_error(device_id: Seq<char>, identity_key: Seq<char>, signing_key: Seq<char>) -> Option<
    Seq<char>,
> {
    if device_id.len() == 0 || encode_utf8(device_id).len() > 64 {
        Some("device_id must be 1-64 characters"@)
    } else if identity_key.len() == 0 || signing_key.len() == 0 {
        Some("identity_key and signing_key are required"@)
    } else {
        None
    }
}

/// Checks a device registered for end-to-end encryption.
pub fn check_device(device_id: &str, identity_key: &str, signing_key: &str) -> (r: Result<
    (),
    ApiError,
>)
    ensures
        match device_error(device_id@, identity_key@, signing_key@) {
            Some(msg) => r matches Err(e) && e@ == ApiErrorView::BadRequest(msg),
            None => r is Ok,
        },
{
    if device_id.is_empty() || device_id.as_bytes().len() > 64 {
        return Err(bad_request("device_id must be 1-64 characters"));
    }
    if identity_key.is_empty() || signing_key.is_empty() {
        return Err(bad_request("identity_key and signing_key are required"));
    }
    Ok(())
}

/// The device named by the `X-Device-Id` header, which key uploads require.
pub fn require_device_header(header: Option<&str>) -> (r: Result<String, ApiError>)
    ensures
        match header {
            Some(h) => r matches Ok(s) && s@ == h@,
            None => r matches Err(e) && e@ == ApiErrorView::BadRequest(
                "X-Device-Id header required"@,
            ),
        },
{
    match header {
        Some(h) => Ok(String::from_str(h)),
        None => Err(bad_request("X-Device-Id header required")),
    }
}

/// Who may turn on encryption in a channel: a member whose role is `admin` or
/// `owner`, or the member who created the channel.
pub open spec fn encryption_admin_error(member_role: Option<Seq<char>>, is_creator: bool) -> Option<
    Seq<char>,
> {
    match member_role {
        None => Some("Not a channel member"@),
        Some(role) => if role != "admin"@ && role != "owner"@ && !is_creator {
            Some("Only channel admins can enable encryption"@)
        } else {
            None
        },
    }
}

/// Checks that a user may turn on encryption in a channel, given the user's
/// role there if a member, and whether the user created the channel.
pub fn check_encryption_admin(member_role: Option<&str>, is_creator: bool) -> (r: Result<
    (),
    ApiError,
>)
    ensures
        match encryption_admin_error(
            match member_role {
                Some(m) => Some(m@),
                None => None::<Seq<char>>,
            },
            is_creator,
        ) {
            Some(msg) => r matches Err(e) && e@ == ApiErrorView::Authorization(msg),
            None => r is Ok,
        },
{
    match member_role {
        None => Err(forbidden("Not a channel member")),
        Some(role) => {
            if !str_eq(role, "admin") && !str_eq(role, "owner") && !is_creator {
                return Err(forbidden("Only channel admins can enable encryption"));
            }
            Ok(())
        },
    }
}

/// The encryption settings of a channel, as answered.
pub struct EncryptionStatusResponse {
    pub encryption_enabled: bool,
    pub algorithm: Option<String>,
    pub rotation_period_msgs: Option<i32>,
    pub rotation_period_ms: Option<i64>,
}

/// The encryption settings answered for a channel: those stored (whether on,
/// algorithm, rotation periods in messages and in milliseconds), or, for a
/// channel that never had any, encryption off and nothing else.
pub fn encryption_status(stored: Option<(bool, String, i32, i64)>) -> (r: EncryptionStatusResponse)
    ensures
        match stored {
            Some((on, algorithm, msgs, ms)) => r.encryption_enabled == on && opt_view(r.algorithm)
                == Some(algorithm@) && r.rotation_period_msgs == Some(msgs) && r.rotation_period_ms
                == Some(ms),
            None => !r.encryption_enabled && r.algorithm is None && r.rotation_period_msgs is None
                && r.rotation_period_ms is None,
        },
{
    match stored {
        Some((on, algorithm, msgs, ms)) => EncryptionStatusResponse {
            encryption_enabled: on,
            algorithm: Some(algorithm),
            rotation_period_msgs: Some(msgs),
            rotation_period_ms: Some(ms),
        },
        None => EncryptionStatusResponse {
            encryption_enabled: false,
            algorithm: None,
            rotation_period_msgs: None,
            rotation_period_ms: None,
        },
    }
}

/// Checks the name of a channel section: it may not be blank.
pub fn check_section_name(name: &str) -> (r: Result<(), ApiError>)
    ensures
        !is_blank_spec(name@) ==> r is Ok,
        is_blank_spec(name@) ==> (r matches Err(e) && e@ == ApiErrorView::BadRequest(
            "Section name cannot be empty"@,
        )),
{
    if is_blank(name) {
        return Err(bad_request("Section name cannot be empty"));
    }
    Ok(())
}

/// The sections created for a user who has none yet: `Starred`, then `Channels`.
pub fn sections_to_create(existing: usize) -> (v: Vec<String>)
    ensures
        existing == 0 ==> v@.len() == 2 && v@[0]@ == "Starred"@ && v@[1]@ == "Channels"@,
        existing > 0 ==> v@.len() == 0,
{
    let mut v: Vec<String> = Vec::new();
    if existing == 0 {
        v.push(String::from_str("Starred"));
        v.push(String::from_str("Channels"));
    }
    v
}

/// Refuses a request about a section, or a channel in a section, that was not there.
pub fn require_section_found(found: bool, channel: bool) -> (r: Result<(), ApiError>)
    ensures
        found ==> r is Ok,
        !found ==> (r matches Err(e) && e@ == ApiErrorView::NotFound(
            if channel {
                "Channel not found in section"@
            } else {
                "Section not found"@
            },
        )),
{
    if found {
        Ok(())
    } else if channel {
        Err(not_found("Channel not found in section"))
    } else {
        Err(not_found("Section not found"))
    }
}

/// The reminder time must be after `now` (both in one unit).
pub fn check_remind_at(remind_at: i64, now: i64) -> (r: Result<(), ApiError>)
    ensures
        remind_at > now ==> r is Ok,
        remind_at <= now ==> (r matches Err(e) && e@ == ApiErrorView::BadRequest(
            "remind_at must be in the future"@,
        )),
{
    if remind_at <= now {
        return Err(bad_request("remind_at must be in the future"));
    }
    Ok(())
}

/// The preview of a message kept with a reminder: its first 100 bytes and `...`
/// when it is longer than that, else all of it.
pub open spec fn preview_spec(content: Seq<char>) -> Seq<char> {
    if encode_utf8(content).len() > 100 {
        decode_utf8(encode_utf8(content).subrange(0, 100)) + "..."@
    } else {
        content
    }
}

/// The preview of a message kept with a reminder. A message longer than 100
/// bytes is cut at byte 100, which must fall between two characters.
pub fn reminder_preview(content: &str) -> (p: String)
    requires
        encode_utf8(content@).len() > 100 ==> is_char_boundary(encode_utf8(content@), 100),
    ensures
        p@ == preview_spec(content@),
{
    if content.as_bytes().len() > 100 {
        let (head, _tail) = content.split_at(100);
        proof {
            encode_utf8_decode_utf8(head@);
        }
        concat2(head, "...")
    } else {
        String::from_str(content)
    }
}

/// Why deleting a reminder is refused: it is someone else's, or already done.
pub open spec fn reminder_delete_error(owner_id: u128, user_id: u128, completed: bool) -> Option<
    ApiErrorView,
> {
    if owner_id != user_id {
        Some(ApiErrorView::Authorization("Not authorized to delete this reminder"@))
    } else if completed {
        Some(ApiErrorView::BadRequest("Cannot delete a completed reminder"@))
    } else {
        None
    }
}

/// Checks that a user may delete a reminder.
pub fn check_reminder_delete(owner_id: u128, user_id: u128, completed: bool) -> (r: Result<
    (),
    ApiError,
>)
    ensures
        match reminder_delete_error(owner_id, user_id, completed) {
            Some(v) => r matches Err(e) && e@ == v,
            None => r is Ok,
        },
{
    if owner_id != user_id {
        return Err(forbidden("Not authorized to delete this reminder"));
    }
    if completed {
        return Err(bad_request("Cannot delete a completed reminder"));
    }
    Ok(())
}

/// Refuses a bookmark on a message the user cannot see: one in a channel it is
/// not a member of, or in a DM it is not part of (`can_see` is `None` for a
/// message in neither, which may be bookmarked).
pub fn check_bookmark_access(can_see: Option<bool>) -> (r: Result<(), ApiError>)
    ensures
        can_see == Some(false) ==> (r matches Err(e) && e@ == ApiErrorView::Authorization(
            "You don't have access to this message"@,
        )),
        can_see != Some(false) ==> r is Ok,
{
    if let Some(false) = can_see {
        return Err(forbidden("You don't have access to this message"));
    }
    Ok(())
}

/// Refuses to mark read, or count the unread messages of, a channel (or a DM,
/// `dm`) that the user is not in.
pub fn require_reader(is_in: bool, dm: bool) -> (r: Result<(), ApiError>)
    ensures
        is_in ==> r is Ok,
        !is_in ==> (r matches Err(e) && e@ == ApiErrorView::Authorization(
            if dm {
                "User is not a participant of this DM"@
            } else {
                "User is not a member of this channel"@
            },
        )),
{
    if is_in {
        Ok(())
    } else if dm {
        Err(forbidden("User is not a participant of this DM"))
    } else {
        Err(forbidden("User is not a member of this channel"))
    }
}

} // verus!
