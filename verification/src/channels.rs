//! Channels: their types, who may change them, and who may join them.
use vstd::prelude::*;
use crate::errors::{bad_request, forbidden, ApiError, ApiErrorView};
use crate::text::str_eq;

verus! {

/// Whether a channel type is one a channel may have.
pub open spec fn valid_channel_type(t: Seq<char>) -> bool {
    t == "public"@ || t == "private"@
}

/// A request for a new channel.
pub struct CreateChannelRequest {
    pub name: String,
    pub description: Option<String>,
    /// `public` or `private`.
    pub channel_type: String,
}

/// Checks a request for a new channel: its type must be `public` or `private`.
pub fn check_new_channel(req: &CreateChannelRequest) -> (r: Result<(), ApiError>)
    ensures
        valid_channel_type(req.channel_type@) ==> r is Ok,
        !valid_channel_type(req.channel_type@) ==> (r matches Err(e) && e@ == ApiErrorView::BadRequest(
            "Channel type must be 'public' or 'private'"@,
        )),
{
    let channel_type = req.channel_type.as_str();
    if str_eq(channel_type, "public") || str_eq(channel_type, "private") {
        Ok(())
    } else {
        Err(bad_request("Channel type must be 'public' or 'private'"))
    }
}

/// What a user does to a channel that only its creator may do.
#[derive(Clone, Copy, PartialEq, Eq, Debug)]
pub enum CreatorAction {
    Update,
    Delete,
    AddMember,
    RemoveMember,
}

/// The refusal answered to someone other than the creator.
pub open spec fn not_creator_message(action: CreatorAction) -> Seq<char> {
    match action {
        CreatorAction::Update => "Only channel creator can update the channel"@,
        CreatorAction::Delete => "Only channel creator can delete the channel"@,
        CreatorAction::AddMember => "Only channel creator can add members"@,
        CreatorAction::RemoveMember => "Only channel creator can remove members"@,
    }
}

/// Checks that `user_id` created the channel it acts on.
pub fn check_channel_creator(created_by: u128, user_id: u128, action: CreatorAction) -> (r: Result<
    (),
    ApiError,
>)
    ensures
        created_by == user_id ==> r is Ok,
        created_by != user_id ==> (r matches Err(e) && e@ == ApiErrorView::Authorization(
            not_creator_message(action),
        )),
{
    if created_by == user_id {
        return Ok(());
    }
    match action {
        CreatorAction::Update => Err(forbidden("Only channel creator can update the channel")),
        CreatorAction::Delete => Err(forbidden("Only channel creator can delete the channel")),
        CreatorAction::AddMember => Err(forbidden("Only channel creator can add members")),
        CreatorAction::RemoveMember => Err(forbidden("Only channel creator can remove members")),
    }
}

/// The role of a member added to a channel: the one asked for, `member` otherwise.
pub fn member_role(role: Option<&str>) -> (r: String)
    ensures
        r@ == match role {
            Some(s) => s@,
            None => "member"@,
        },
{
    match role {
        Some(s) => String::from_str(s),
        None => String::from_str("member"),
    }
}

/// Why a user may not join a channel: it belongs to another organization, it is
/// not public, or the user is already a member.
pub open spec fn join_channel_error(
    channel_org: u128,
    user_org: u128,
    channel_type: Seq<char>,
    is_member: bool,
) -> Option<ApiErrorView> {
    if channel_org != user_org {
        Some(ApiErrorView::Authorization("Channel does not belong to your organization"@))
    } else if channel_type != "public"@ {
        Some(
            ApiErrorView::BadRequest(
                "Only public channels can be joined. Private channels require an invitation."@,
            ),
        )
    } else if is_member {
        Some(ApiErrorView::BadRequest("You are already a member of this channel"@))
    } else {
        None
    }
}

/// Checks that a user may join a channel.
pub fn check_join_channel(channel_org: u128, user_org: u128, channel_type: &str, is_member: bool) -> (r:
    Result<(), ApiError>)
    ensures
        match join_channel_error(channel_org, user_org, channel_type@, is_member) {
            Some(v) => r matches Err(e) && e@ == v,
            None => r is Ok,
        },
{
    if channel_org != user_org {
        return Err(forbidden("Channel does not belong to your organization"));
    }
    if !str_eq(channel_type, "public") {
        return Err(
            bad_request(
                "Only public channels can be joined. Private channels require an invitation.",
            ),
        );
    }
    if is_member {
        return Err(bad_request("You are already a member of this channel"));
    }
    Ok(())
}

/// Only the public channels of one's own organization can be joined, and only
/// once: whoever joins successfully was not a member and the channel is public.
pub proof fn law_join_only_public_once(
    channel_org: u128,
    user_org: u128,
    channel_type: Seq<char>,
    is_member: bool,
)
    ensures
        join_channel_error(channel_org, user_org, channel_type, is_member) is None <==> (
        channel_org == user_org && channel_type == "public"@ && !is_member),
{
}

} // verus!
