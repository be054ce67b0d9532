//! Users and what they set about themselves: profiles, presence statuses,
//! notification preferences, user groups and roles.
use vstd::prelude::*;
use crate::errors::{bad_request, forbidden, not_found, ApiError, ApiErrorView};
use crate::patterns::{handle_pattern, is_handle, opt_view, regex_is_match};
use crate::text::{is_blank, is_blank_spec, str_eq};

verus! {

/// Refuses a change to another user's profile (`status` false) or status.
pub fn check_own_account(user_id: u128, target_id: u128, status: bool) -> (r: Result<(), ApiError>)
    ensures
        user_id == target_id ==> r is Ok,
        user_id != target_id ==> (r matches Err(e) && e@ == ApiErrorView::Authorization(
            if status {
                "You can only update your own status"@
            } else {
                "You can only update your own profile"@
            },
        )),
{
    if user_id == target_id {
        Ok(())
    } else if status {
        Err(forbidden("You can only update your own status"))
    } else {
        Err(forbidden("You can only update your own profile"))
    }
}

/// A request to change a user's profile; only the fields given change.
pub struct UpdateUserRequest {
    pub display_name: Option<String>,
    pub avatar_url: Option<String>,
}

/// The display name and avatar of a profile after an update: each given field
/// replaces the one there, the others stay.
pub fn apply_profile_update(
    display_name: String,
    avatar_url: Option<String>,
    req: &UpdateUserRequest,
) -> (r: (String, Option<String>))
    ensures
        r.0@ == match req.display_name {
            Some(n) => n@,
            None => display_name@,
        },
        opt_view(r.1) == match req.avatar_url {
            Some(a) => Some(a@),
            None => opt_view(avatar_url),
        },
{
    let name = match &req.display_name {
        Some(n) => n.clone(),
        None => display_name,
    };
    let avatar = match &req.avatar_url {
        Some(a) => Some(a.clone()),
        None => avatar_url,
    };
    (name, avatar)
}

/// The statuses a user account may be set to.
pub open spec fn account_status_ok(s: Seq<char>) -> bool {
    s == "online"@ || s == "offline"@ || s == "away"@
}

/// A request to set the status of a user account.
pub struct UpdateStatusRequest {
    pub status: String,
}

/// Checks the status set on a user account.
pub fn check_account_status(req: &UpdateStatusRequest) -> (r: Result<(), ApiError>)
    ensures
        account_status_ok(req.status@) ==> r is Ok,
        !account_status_ok(req.status@) ==> (r matches Err(e) && e@ == ApiErrorView::BadRequest(
            "Status must be 'online', 'offline', or 'away'"@,
        )),
{
    let status = req.status.as_str();
    if str_eq(status, "online") || str_eq(status, "offline") || str_eq(status, "away") {
        Ok(())
    } else {
        Err(bad_request("Status must be 'online', 'offline', or 'away'"))
    }
}

/// The presence statuses a user may set, `dnd` among them.
pub open spec fn presence_ok(s: Seq<char>) -> bool {
    s == "online"@ || s == "offline"@ || s == "away"@ || s == "dnd"@
}

/// Checks a presence status.
pub fn check_presence(status: &str) -> (r: Result<(), ApiError>)
    ensures
        presence_ok(status@) ==> r is Ok,
        !presence_ok(status@) ==> (r matches Err(e) && e@ == ApiErrorView::BadRequest(
            "Status must be 'online', 'offline', 'away', or 'dnd'"@,
        )),
{
    if str_eq(status, "online") || str_eq(status, "offline") || str_eq(status, "away") || str_eq(
        status,
        "dnd",
    ) {
        Ok(())
    } else {
        Err(bad_request("Status must be 'online', 'offline', 'away', or 'dnd'"))
    }
}

/// When a presence status set at `now` (in seconds) clears itself: after the
/// number of minutes asked, when that number is positive; otherwise never.
pub fn status_clear_at(now: i64, clear_after_minutes: Option<i32>) -> (r: Option<i64>)
    requires
        -0x4000_0000_0000_0000 <= now <= 0x4000_0000_0000_0000,
    ensures
        r == match clear_after_minutes {
            Some(m) => if m > 0 {
                Some((now + m * 60) as i64)
            } else {
                None::<i64>
            },
            None => None::<i64>,
        },
{
    match clear_after_minutes {
        Some(m) => if m > 0 {
            let secs: i64 = (m as i64) * 60;
            Some(now + secs)
        } else {
            None
        },
        None => None,
    }
}

/// The presence shown for a user who never set one: `offline`.
pub fn default_presence() -> (s: String)
    ensures
        s@ == "offline"@,
{
    String::from_str("offline")
}

/// Refuses to show the status of a user of another organization.
pub fn check_status_visible(target_org: u128, user_org: u128) -> (r: Result<(), ApiError>)
    ensures
        target_org == user_org ==> r is Ok,
        target_org != user_org ==> (r matches Err(e) && e@ == ApiErrorView::Authorization(
            "Cannot view status of users in other organizations"@,
        )),
{
    if target_org == user_org {
        Ok(())
    } else {
        Err(forbidden("Cannot view status of users in other organizations"))
    }
}

/// The notification preferences a channel or DM may have.
pub open spec fn preference_ok(p: Seq<char>) -> bool {
    p == "all"@ || p == "mentions"@ || p == "nothing"@
}

/// Checks a notification preference.
pub fn check_notification_preference(preference: &str) -> (r: Result<(), ApiError>)
    ensures
        preference_ok(preference@) ==> r is Ok,
        !preference_ok(preference@) ==> (r matches Err(e) && e@ == ApiErrorView::BadRequest(
            "preference must be 'all', 'mentions', or 'nothing'"@,
        )),
{
    if str_eq(preference, "all") || str_eq(preference, "mentions") || str_eq(preference, "nothing") {
        Ok(())
    } else {
        Err(bad_request("preference must be 'all', 'mentions', or 'nothing'"))
    }
}

/// The preference reported where none was set: `all`.
pub fn default_preference() -> (s: String)
    ensures
        s@ == "all"@,
{
    String::from_str("all")
}

/// The refusal of a handle that is not made of lowercase letters, digits,
/// hyphens and underscores.
pub open spec fn bad_handle_error() -> ApiErrorView {
    ApiErrorView::BadRequest(
        "Handle must contain only lowercase letters, numbers, hyphens, and underscores"@,
    )
}

/// Checks the handle of a user group against `^[a-z0-9_-]+$`.
pub fn validate_handle(handle: &str) -> (r: Result<(), ApiError>)
    ensures
        is_handle(handle@) ==> r is Ok,
        !is_handle(handle@) ==> (r matches Err(e) && e@ == bad_handle_error()),
{
    let pattern = "^[a-z0-9_-]+$";
    proof {
        assert(pattern@ == handle_pattern());
    }
    if !regex_is_match(pattern, handle) {
        return Err(
            bad_request(
                "Handle must contain only lowercase letters, numbers, hyphens, and underscores",
            ),
        );
    }
    Ok(())
}

/// Why a new user group is refused: a blank name, or a bad handle.
pub open spec fn new_group_error(name: Seq<char>, handle: Seq<char>) -> Option<ApiErrorView> {
    if is_blank_spec(name) {
        Some(ApiErrorView::BadRequest("Group name cannot be empty"@))
    } else if !is_handle(handle) {
        Some(bad_handle_error())
    } else {
        None
    }
}

/// Checks a new user group.
pub fn check_new_group(name: &str, handle: &str) -> (r: Result<(), ApiError>)
    ensures
        match new_group_error(name@, handle@) {
            Some(v) => r matches Err(e) && e@ == v,
            None => r is Ok,
        },
{
    if is_blank(name) {
        return Err(bad_request("Group name cannot be empty"));
    }
    validate_handle(handle)
}

/// Refuses a request about a group, or a group member, that was not there.
pub fn require_group_found(found: bool, member: bool) -> (r: Result<(), ApiError>)
    ensures
        found ==> r is Ok,
        !found ==> (r matches Err(e) && e@ == ApiErrorView::NotFound(
            if member {
                "Member not found in group"@
            } else {
                "Group not found"@
            },
        )),
{
    if found {
        Ok(())
    } else if member {
        Err(not_found("Member not found in group"))
    } else {
        Err(not_found("Group not found"))
    }
}

/// What is done to a role that system roles refuse.
#[derive(Clone, Copy, PartialEq, Eq, Debug)]
pub enum RoleChange {
    Update,
    Delete,
    AssignPermissions,
}

/// The refusal of a change to a system role.
pub open spec fn system_role_message(change: RoleChange) -> Seq<char> {
    match change {
        RoleChange::Update => "Cannot update system roles"@,
        RoleChange::Delete => "Cannot delete system roles"@,
        RoleChange::AssignPermissions => "Cannot modify permissions for system roles"@,
    }
}

/// Refuses to update, delete or change the permissions of a system role.
pub fn check_role_change(is_system_role: bool, change: RoleChange) -> (r: Result<(), ApiError>)
    ensures
        !is_system_role ==> r is Ok,
        is_system_role ==> (r matches Err(e) && e@ == ApiErrorView::BadRequest(
            system_role_message(change),
        )),
{
    if !is_system_role {
        return Ok(());
    }
    match change {
        RoleChange::Update => Err(bad_request("Cannot update system roles")),
        RoleChange::Delete => Err(bad_request("Cannot delete system roles")),
        RoleChange::AssignPermissions => Err(
            bad_request("Cannot modify permissions for system roles"),
        ),
    }
}

} // verus!
