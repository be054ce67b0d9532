//! What users do around messages: drafts, scheduled messages, reactions, read
//! receipts and pins, with the checks each of them makes.
use vstd::prelude::*;
use crate::commands::Target;
use crate::errors::{bad_request, forbidden, internal, ApiError, ApiErrorView};
use crate::ids::{uuid_string, uuid_text};
use crate::patterns::opt_view;
use crate::text::{is_blank, is_blank_spec};

verus! {

/// Why a draft is refused: it needs one of a channel and a DM, not both, and
/// non-blank content.
pub open spec fn draft_error(channel_id: Option<u128>, dm_id: Option<u128>, content: Seq<char>) -> Option<
    Seq<char>,
> {
    if channel_id is None && dm_id is None {
        Some("Either channel_id or dm_id must be provided"@)
    } else if channel_id is Some && dm_id is Some {
        Some("Only one of channel_id or dm_id can be provided"@)
    } else if is_blank_spec(content) {
        Some("Content cannot be empty"@)
    } else {
        None
    }
}

/// The channel, or else the DM, of a request that names exactly one of them.
pub open spec fn sole_target(channel_id: Option<u128>, dm_id: Option<u128>) -> Target {
    match channel_id {
        Some(c) => Target::Channel(c),
        None => Target::Dm(dm_id.unwrap()),
    }
}

/// Checks a draft to save and gives where it belongs.
pub fn check_draft(channel_id: Option<u128>, dm_id: Option<u128>, content: &str) -> (r: Result<
    Target,
    ApiError,
>)
    ensures
        match draft_error(channel_id, dm_id, content@) {
            Some(msg) => r matches Err(e) && e@ == ApiErrorView::BadRequest(msg),
            None => r == Ok::<Target, ApiError>(sole_target(channel_id, dm_id)),
        },
{
    let target = match (channel_id, dm_id) {
        (None, None) => {
            return Err(bad_request("Either channel_id or dm_id must be provided"));
        },
        (Some(_), Some(_)) => {
            return Err(bad_request("Only one of channel_id or dm_id can be provided"));
        },
        (Some(c), None) => Target::Channel(c),
        (None, Some(d)) => Target::Dm(d),
    };
    if is_blank(content) {
        return Err(bad_request("Content cannot be empty"));
    }
    Ok(target)
}

/// A saved draft, as answered: identifiers and time written as text.
pub struct DraftResponse {
    pub id: String,
    pub channel_id: Option<String>,
    pub dm_id: Option<String>,
    pub content: String,
    pub updated_at: String,
}

fn opt_uuid_string(id: Option<u128>) -> (r: Option<String>)
    ensures
        opt_view(r) == match id {
            Some(i) => Some(uuid_text(i)),
            None => None::<Seq<char>>,
        },
{
    match id {
        Some(i) => Some(uuid_string(i)),
        None => None,
    }
}

/// The answer for a saved draft, its identifiers written as UUID text.
pub fn draft_response(
    id: u128,
    channel_id: Option<u128>,
    dm_id: Option<u128>,
    content: String,
    updated_at: String,
) -> (r: DraftResponse)
    ensures
        r.id@ == uuid_text(id),
        opt_view(r.channel_id) == match channel_id {
            Some(c) => Some(uuid_text(c)),
            None => None::<Seq<char>>,
        },
        opt_view(r.dm_id) == match dm_id {
            Some(d) => Some(uuid_text(d)),
            None => None::<Seq<char>>,
        },
        r.content@ == content@,
        r.updated_at@ == updated_at@,
{
    DraftResponse {
        id: uuid_string(id),
        channel_id: opt_uuid_string(channel_id),
        dm_id: opt_uuid_string(dm_id),
        content,
        updated_at,
    }
}

/// The HTTP status answered to a draft deletion: 204 when one was deleted, else 404.
pub fn draft_delete_status(deleted: bool) -> (code: u16)
    ensures
        code == if deleted {
            204u16
        } else {
            404u16
        },
{
    if deleted {
        204
    } else {
        404
    }
}

/// Why a new scheduled message is refused: exactly one of a channel and a DM,
/// non-blank content, and a time after `now`.
pub open spec fn schedule_error(
    channel_id: Option<u128>,
    dm_id: Option<u128>,
    content: Seq<char>,
    scheduled_at: i64,
    now: i64,
) -> Option<Seq<char>> {
    if channel_id is Some == dm_id is Some {
        Some("Exactly one of channel_id or dm_id must be provided"@)
    } else if is_blank_spec(content) {
        Some("Content must not be empty"@)
    } else if scheduled_at <= now {
        Some("scheduled_at must be in the future"@)
    } else {
        None
    }
}

/// Checks a message to schedule (times in one unit, `now` being the present) and
/// gives where it goes.
pub fn check_schedule(
    channel_id: Option<u128>,
    dm_id: Option<u128>,
    content: &str,
    scheduled_at: i64,
    now: i64,
) -> (r: Result<Target, ApiError>)
    ensures
        match schedule_error(channel_id, dm_id, content@, scheduled_at, now) {
            Some(msg) => r matches Err(e) && e@ == ApiErrorView::BadRequest(msg),
            None => r == Ok::<Target, ApiError>(sole_target(channel_id, dm_id)),
        },
{
    let target = match (channel_id, dm_id) {
        (Some(c), None) => Target::Channel(c),
        (None, Some(d)) => Target::Dm(d),
        _ => {
            return Err(bad_request("Exactly one of channel_id or dm_id must be provided"));
        },
    };
    if is_blank(content) {
        return Err(bad_request("Content must not be empty"));
    }
    if scheduled_at <= now {
        return Err(bad_request("scheduled_at must be in the future"));
    }
    Ok(target)
}

/// Why a change (`deleting` false, with the new time if one is given) or the
/// deletion of a scheduled message is refused: only its author may, only before
/// it is sent, and a new time must be after `now`.
pub open spec fn scheduled_change_error(
    owner_id: u128,
    user_id: u128,
    sent: bool,
    deleting: bool,
    new_time: Option<i64>,
    now: i64,
) -> Option<ApiErrorView> {
    if owner_id != user_id {
        Some(
            ApiErrorView::Authorization(
                if deleting {
                    "Not authorized to delete this scheduled message"@
                } else {
                    "Not authorized to update this scheduled message"@
                },
            ),
        )
    } else if sent {
        Some(
            ApiErrorView::BadRequest(
                if deleting {
                    "Cannot delete a sent scheduled message"@
                } else {
                    "Cannot update a sent scheduled message"@
                },
            ),
        )
    } else if !deleting && (new_time matches Some(t) && t <= now) {
        Some(ApiErrorView::BadRequest("scheduled_at must be in the future"@))
    } else {
        None
    }
}

/// Checks a change to, or the deletion of, a scheduled message.
pub fn check_scheduled_change(
    owner_id: u128,
    user_id: u128,
    sent: bool,
    deleting: bool,
    new_time: Option<i64>,
    now: i64,
) -> (r: Result<(), ApiError>)
    ensures
        match scheduled_change_error(owner_id, user_id, sent, deleting, new_time, now) {
            Some(v) => r matches Err(e) && e@ == v,
            None => r is Ok,
        },
{
    if owner_id != user_id {
        if deleting {
            return Err(forbidden("Not authorized to delete this scheduled message"));
        }
        return Err(forbidden("Not authorized to update this scheduled message"));
    }
    if sent {
        if deleting {
            return Err(bad_request("Cannot delete a sent scheduled message"));
        }
        return Err(bad_request("Cannot update a sent scheduled message"));
    }
    if !deleting {
        if let Some(t) = new_time {
            if t <= now {
                return Err(bad_request("scheduled_at must be in the future"));
            }
        }
    }
    Ok(())
}

/// The most bytes an emoji of a reaction may take.
pub const MAX_EMOJI_BYTES: usize = 50;

/// Why an emoji is refused as a reaction: blank, or longer than 50 bytes.
pub open spec fn emoji_error(emoji: Seq<char>) -> Option<Seq<char>> {
    if is_blank_spec(emoji) {
        Some("Emoji cannot be empty"@)
    } else if vstd::utf8::encode_utf8(emoji).len() > 50 {
        Some("Emoji too long"@)
    } else {
        None
    }
}

/// A request to react to a message.
pub struct AddReactionRequest {
    pub emoji: String,
}

/// Checks the emoji of a new reaction.
pub fn check_reaction(req: &AddReactionRequest) -> (r: Result<(), ApiError>)
    ensures
        match emoji_error(req.emoji@) {
            Some(msg) => r matches Err(e) && e@ == ApiErrorView::BadRequest(msg),
            None => r is Ok,
        },
{
    let emoji = req.emoji.as_str();
    if is_blank(emoji) {
        return Err(bad_request("Emoji cannot be empty"));
    }
    if emoji.as_bytes().len() > MAX_EMOJI_BYTES {
        return Err(bad_request("Emoji too long"));
    }
    Ok(())
}

/// Where a message stands, as far as who may act on it: in a channel (with
/// whether the user is a member), else in a DM (with whether the user takes part),
/// else nowhere.
#[derive(Clone, Copy, PartialEq, Eq, Debug)]
pub enum MessagePlace {
    Channel { is_member: bool },
    Dm { is_participant: bool },
    Nowhere,
}

/// Why a user may not react to a message.
pub open spec fn reaction_access_error(place: MessagePlace) -> Option<ApiErrorView> {
    match place {
        MessagePlace::Channel { is_member } => if is_member {
            None
        } else {
            Some(ApiErrorView::Authorization("You are not a member of this channel"@))
        },
        MessagePlace::Dm { is_participant } => if is_participant {
            None
        } else {
            Some(ApiErrorView::Authorization("You are not a participant in this DM"@))
        },
        MessagePlace::Nowhere => Some(
            ApiErrorView::Internal("Message has neither channel_id nor dm_id"@),
        ),
    }
}

/// Checks that a user may react to (or list the reactions of) a message.
pub fn check_reaction_access(place: MessagePlace) -> (r: Result<(), ApiError>)
    ensures
        match reaction_access_error(place) {
            Some(v) => r matches Err(e) && e@ == v,
            None => r is Ok,
        },
{
    match place {
        MessagePlace::Channel { is_member } => if is_member {
            Ok(())
        } else {
            Err(forbidden("You are not a member of this channel"))
        },
        MessagePlace::Dm { is_participant } => if is_participant {
            Ok(())
        } else {
            Err(forbidden("You are not a participant in this DM"))
        },
        MessagePlace::Nowhere => Err(internal("Message has neither channel_id nor dm_id")),
    }
}

/// Why a user may not mark a message read, or see who read it.
pub open spec fn receipt_access_error(place: MessagePlace) -> Option<ApiErrorView> {
    match place {
        MessagePlace::Channel { is_member } => if is_member {
            None
        } else {
            Some(ApiErrorView::Authorization("You are not a member of this channel"@))
        },
        MessagePlace::Dm { is_participant } => if is_participant {
            None
        } else {
            Some(ApiErrorView::Authorization("You are not part of this DM"@))
        },
        MessagePlace::Nowhere => Some(ApiErrorView::BadRequest("Message has no channel or DM"@)),
    }
}

/// Checks that a user may mark a message read, or see who read it.
pub fn check_receipt_access(place: MessagePlace) -> (r: Result<(), ApiError>)
    ensures
        match receipt_access_error(place) {
            Some(v) => r matches Err(e) && e@ == v,
            None => r is Ok,
        },
{
    match place {
        MessagePlace::Channel { is_member } => if is_member {
            Ok(())
        } else {
            Err(forbidden("You are not a member of this channel"))
        },
        MessagePlace::Dm { is_participant } => if is_participant {
            Ok(())
        } else {
            Err(forbidden("You are not part of this DM"))
        },
        MessagePlace::Nowhere => Err(bad_request("Message has no channel or DM")),
    }
}

/// Whether a batch of read receipts is recorded: not for a user who turned read
/// receipts off (answered with no content); a batch must name some message.
pub fn plan_receipt_batch(receipts_disabled: bool, message_count: usize) -> (r: Result<
    bool,
    ApiError,
>)
    ensures
        receipts_disabled ==> r == Ok::<bool, ApiError>(false),
        !receipts_disabled && message_count == 0 ==> (r matches Err(e) && e@
            == ApiErrorView::BadRequest("message_ids cannot be empty"@)),
        !receipts_disabled && message_count > 0 ==> r == Ok::<bool, ApiError>(true),
{
    if receipts_disabled {
        return Ok(false);
    }
    if message_count == 0 {
        return Err(bad_request("message_ids cannot be empty"));
    }
    Ok(true)
}

/// The channel of a message to pin (or unpin): messages in DMs cannot be.
pub fn pin_channel(message_channel_id: Option<u128>, unpinning: bool) -> (r: Result<
    u128,
    ApiError,
>)
    ensures
        match message_channel_id {
            Some(c) => r == Ok::<u128, ApiError>(c),
            None => r matches Err(e) && e@ == ApiErrorView::BadRequest(
                if unpinning {
                    "Cannot unpin messages in DMs"@
                } else {
                    "Cannot pin messages in DMs"@
                },
            ),
        },
{
    match message_channel_id {
        Some(c) => Ok(c),
        None => if unpinning {
            Err(bad_request("Cannot unpin messages in DMs"))
        } else {
            Err(bad_request("Cannot pin messages in DMs"))
        },
    }
}

} // verus!
