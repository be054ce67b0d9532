//! Voice and video calls: the checks made when a call is started, joined, left
//! or ended, and how its status moves.
use vstd::prelude::*;
use crate::errors::{bad_request, forbidden, not_found, ApiError, ApiErrorView};
use crate::text::str_eq;

verus! {

/// The refusal answered when no media server is configured.
pub open spec fn not_configured() -> ApiErrorView {
    ApiErrorView::BadRequest("Voice/video calling is not configured"@)
}

/// Refuses a call operation when no media server is configured.
pub fn require_livekit(configured: bool) -> (r: Result<(), ApiError>)
    ensures
        configured ==> r is Ok,
        !configured ==> (r matches Err(e) && e@ == not_configured()),
{
    if configured {
        Ok(())
    } else {
        Err(bad_request("Voice/video calling is not configured"))
    }
}

/// The URL of the media server handed to clients: the configured one, or empty.
pub fn get_livekit_url(configured: Option<&str>) -> (u: String)
    ensures
        u@ == match configured {
            Some(s) => s@,
            None => Seq::<char>::empty(),
        },
{
    match configured {
        Some(s) => String::from_str(s),
        None => String::new(),
    }
}

/// The call type asked for, `audio` where none is given.
pub open spec fn call_type_spec(call_type: Option<Seq<char>>) -> Seq<char> {
    match call_type {
        Some(t) => t,
        None => "audio"@,
    }
}

/// Why starting a call is refused before anything is looked up, if it is.
pub open spec fn start_call_error(
    configured: bool,
    call_type: Option<Seq<char>>,
    channel_id: Option<u128>,
    dm_id: Option<u128>,
) -> Option<Seq<char>> {
    if !configured {
        Some("Voice/video calling is not configured"@)
    } else if !(call_type_spec(call_type) == "audio"@ || call_type_spec(call_type) == "video"@) {
        Some("call_type must be 'audio' or 'video'"@)
    } else if channel_id is None && dm_id is None {
        Some("channel_id or dm_id is required"@)
    } else {
        None
    }
}

/// Checks a request to start a call and gives its call type.
pub fn check_start_call(
    configured: bool,
    call_type: Option<&str>,
    channel_id: Option<u128>,
    dm_id: Option<u128>,
) -> (r: Result<String, ApiError>)
    ensures
        ({
            let ct = match call_type {
                Some(s) => Some(s@),
                None => None::<Seq<char>>,
            };
            match start_call_error(configured, ct, channel_id, dm_id) {
                Some(msg) => r matches Err(e) && e@ == ApiErrorView::BadRequest(msg),
                None => r matches Ok(t) && t@ == call_type_spec(ct),
            }
        }),
{
    if !configured {
        return Err(bad_request("Voice/video calling is not configured"));
    }
    let kind: &str = match call_type {
        Some(t) => t,
        None => "audio",
    };
    if !(str_eq(kind, "audio") || str_eq(kind, "video")) {
        return Err(bad_request("call_type must be 'audio' or 'video'"));
    }
    if channel_id.is_none() && dm_id.is_none() {
        return Err(bad_request("channel_id or dm_id is required"));
    }
    Ok(String::from_str(kind))
}

/// What was found about the caller and a channel or DM where a call would start.
#[derive(Clone, Copy)]
pub struct ScopeCheck {
    /// The caller is a member of the channel, or a participant of the DM.
    pub is_member: bool,
    /// A call is already going on there.
    pub has_active_call: bool,
}

/// Why a call may not start in the given channel and DM: the channel is checked
/// first, membership before a call already going on.
pub open spec fn call_scope_error(channel: Option<ScopeCheck>, dm: Option<ScopeCheck>) -> Option<
    ApiErrorView,
> {
    if channel matches Some(c) && !c.is_member {
        Some(ApiErrorView::Authorization("Not a channel member"@))
    } else if channel matches Some(c) && c.has_active_call {
        Some(ApiErrorView::BadRequest("An active call already exists in this channel"@))
    } else if dm matches Some(d) && !d.is_member {
        Some(ApiErrorView::Authorization("Not a DM participant"@))
    } else if dm matches Some(d) && d.has_active_call {
        Some(ApiErrorView::BadRequest("An active call already exists in this DM"@))
    } else {
        None
    }
}

/// Checks that a call may start in the given channel and DM.
pub fn check_call_scope(channel: Option<ScopeCheck>, dm: Option<ScopeCheck>) -> (r: Result<
    (),
    ApiError,
>)
    ensures
        match call_scope_error(channel, dm) {
            Some(v) => r matches Err(e) && e@ == v,
            None => r is Ok,
        },
{
    if let Some(c) = channel {
        if !c.is_member {
            return Err(forbidden("Not a channel member"));
        }
        if c.has_active_call {
            return Err(bad_request("An active call already exists in this channel"));
        }
    }
    if let Some(d) = dm {
        if !d.is_member {
            return Err(forbidden("Not a DM participant"));
        }
        if d.has_active_call {
            return Err(bad_request("An active call already exists in this DM"));
        }
    }
    Ok(())
}

/// Why joining a call is refused: it has ended, or the user is not in its
/// channel (`channel_member`) or DM (`dm_participant`), where it has one.
pub open spec fn join_call_error(
    status: Seq<char>,
    channel_member: Option<bool>,
    dm_participant: Option<bool>,
) -> Option<ApiErrorView> {
    if status == "ended"@ {
        Some(ApiErrorView::BadRequest("Call has ended"@))
    } else if channel_member == Some(false) {
        Some(ApiErrorView::Authorization("Not a channel member"@))
    } else if dm_participant == Some(false) {
        Some(ApiErrorView::Authorization("Not a DM participant"@))
    } else {
        None
    }
}

/// A ringing call becomes active when someone other than its starter joins.
pub open spec fn join_activates(status: Seq<char>, user_id: u128, started_by: u128) -> bool {
    status == "ringing"@ && user_id != started_by
}

/// The status of a call after a join that was let in.
pub open spec fn status_after_join(status: Seq<char>, user_id: u128, started_by: u128) -> Seq<
    char,
> {
    if join_activates(status, user_id, started_by) {
        "active"@
    } else {
        status
    }
}

/// Checks that `user_id` may join a call, and says whether the join makes it active.
pub fn check_join_call(
    status: &str,
    started_by: u128,
    user_id: u128,
    channel_member: Option<bool>,
    dm_participant: Option<bool>,
) -> (r: Result<bool, ApiError>)
    ensures
        match join_call_error(status@, channel_member, dm_participant) {
            Some(v) => r matches Err(e) && e@ == v,
            None => r matches Ok(a) && a == join_activates(status@, user_id, started_by),
        },
{
    if str_eq(status, "ended") {
        return Err(bad_request("Call has ended"));
    }
    if let Some(false) = channel_member {
        return Err(forbidden("Not a channel member"));
    }
    if let Some(false) = dm_participant {
        return Err(forbidden("Not a DM participant"));
    }
    Ok(str_eq(status, "ringing") && user_id != started_by)
}

/// Why leaving a call is refused: it has already ended.
pub open spec fn leave_call_error(status: Seq<char>) -> Option<ApiErrorView> {
    if status == "ended"@ {
        Some(ApiErrorView::BadRequest("Call has already ended"@))
    } else {
        None
    }
}

/// Checks that a call may be left.
pub fn check_leave_call(status: &str) -> (r: Result<(), ApiError>)
    ensures
        match leave_call_error(status@) {
            Some(v) => r matches Err(e) && e@ == v,
            None => r is Ok,
        },
{
    if str_eq(status, "ended") {
        return Err(bad_request("Call has already ended"));
    }
    Ok(())
}

/// A call ends by itself when nobody is left in it.
pub fn ends_after_leave(remaining: i64) -> (b: bool)
    ensures
        b == (remaining == 0),
{
    remaining == 0
}

/// The status of a call after a leave that was let in, with `remaining`
/// participants still in it.
pub open spec fn status_after_leave(status: Seq<char>, remaining: i64) -> Seq<char> {
    if remaining == 0 {
        "ended"@
    } else {
        status
    }
}

/// Why ending a call is refused: it has already ended, or the user did not start it.
pub open spec fn end_call_error(status: Seq<char>, started_by: u128, user_id: u128) -> Option<
    ApiErrorView,
> {
    if status == "ended"@ {
        Some(ApiErrorView::BadRequest("Call has already ended"@))
    } else if started_by != user_id {
        Some(ApiErrorView::Authorization("Only the call starter can end the call"@))
    } else {
        None
    }
}

/// Checks that `user_id` may end a call.
pub fn check_end_call(status: &str, started_by: u128, user_id: u128) -> (r: Result<(), ApiError>)
    ensures
        match end_call_error(status@, started_by, user_id) {
            Some(v) => r matches Err(e) && e@ == v,
            None => r is Ok,
        },
{
    if str_eq(status, "ended") {
        return Err(bad_request("Call has already ended"));
    }
    if started_by != user_id {
        return Err(forbidden("Only the call starter can end the call"));
    }
    Ok(())
}

/// Checks that a user may join a channel's huddle: calling must be configured,
/// then the user must be a member of the channel.
pub fn check_join_huddle(configured: bool, is_member: bool) -> (r: Result<(), ApiError>)
    ensures
        !configured ==> (r matches Err(e) && e@ == not_configured()),
        configured && !is_member ==> (r matches Err(e) && e@ == ApiErrorView::Authorization(
            "Not a channel member"@,
        )),
        configured && is_member ==> r is Ok,
{
    if !configured {
        return Err(bad_request("Voice/video calling is not configured"));
    }
    if !is_member {
        return Err(forbidden("Not a channel member"));
    }
    Ok(())
}

/// A huddle just created, read back; not finding it is an internal error.
pub fn created_huddle<T>(found: Option<T>) -> (r: Result<T, ApiError>)
    ensures
        match found {
            Some(h) => r matches Ok(x) && x == h,
            None => r matches Err(e) && e@ == ApiErrorView::Internal(
                "Failed to fetch created huddle"@,
            ),
        },
{
    match found {
        Some(h) => Ok(h),
        None => Err(crate::errors::internal("Failed to fetch created huddle")),
    }
}

/// The active huddle of a channel, which leaving one needs.
pub fn require_huddle(found: Option<u128>) -> (r: Result<u128, ApiError>)
    ensures
        match found {
            Some(id) => r == Ok::<u128, ApiError>(id),
            None => r matches Err(e) && e@ == ApiErrorView::NotFound(
                "No active huddle in this channel"@,
            ),
        },
{
    match found {
        Some(id) => Ok(id),
        None => Err(not_found("No active huddle in this channel")),
    }
}

/// Once a call has ended, it can be neither joined, nor left, nor ended again,
/// whoever asks.
pub proof fn law_ended_call_refuses_everything(
    started_by: u128,
    user_id: u128,
    channel_member: Option<bool>,
    dm_participant: Option<bool>,
)
    ensures
        join_call_error("ended"@, channel_member, dm_participant) is Some,
        leave_call_error("ended"@) is Some,
        end_call_error("ended"@, started_by, user_id) is Some,
{
}

/// A join never ends a call, and a join by its starter never changes its status.
pub proof fn law_join_keeps_call_open(status: Seq<char>, user_id: u128, started_by: u128)
    requires
        join_call_error(status, Some(true), Some(true)) is None,
    ensures
        status_after_join(status, user_id, started_by) != "ended"@,
        user_id == started_by ==> status_after_join(status, user_id, started_by) == status,
{
    reveal_strlit("ended");
    reveal_strlit("active");
    if join_activates(status, user_id, started_by) {
        assert("active"@ != "ended"@) by {
            assert("active"@[0] != "ended"@[0]);
        }
    }
}

} // verus!
