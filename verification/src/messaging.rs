//! Messages: the checks made when one is sent, edited or deleted, who is notified
//! of it, which cache it invalidates, and how a page of messages is assembled.
use vstd::prelude::*;
use crate::commands::Target;
use crate::errors::{bad_request, forbidden, ApiError, ApiErrorView};
use crate::ids::{lemma_others_contains, others};
use crate::keys::{channel_messages_cache_key, dm_messages_cache_key, org_key_spec};
use crate::text::{is_blank, is_blank_spec};

verus! {

/// Why a new message is refused before anything is looked up, if it is:
/// exactly one of a channel and a DM, and some non-blank content.
pub open spec fn send_message_error(
    channel_id: Option<u128>,
    dm_id: Option<u128>,
    content: Seq<char>,
) -> Option<Seq<char>> {
    if channel_id is Some && dm_id is Some {
        Some("Cannot specify both channel_id and dm_id"@)
    } else if channel_id is None && dm_id is None {
        Some("Must specify either channel_id or dm_id"@)
    } else if is_blank_spec(content) {
        Some("Message content cannot be empty"@)
    } else {
        None
    }
}

/// Checks a new message and gives where it goes.
pub fn check_send_message(channel_id: Option<u128>, dm_id: Option<u128>, content: &str) -> (r:
    Result<Target, ApiError>)
    ensures
        match send_message_error(channel_id, dm_id, content@) {
            Some(msg) => r matches Err(e) && e@ == ApiErrorView::BadRequest(msg),
            None => r == Ok::<Target, ApiError>(
                match channel_id {
                    Some(c) => Target::Channel(c),
                    None => Target::Dm(dm_id.unwrap()),
                },
            ),
        },
{
    let target = match (channel_id, dm_id) {
        (Some(_), Some(_)) => {
            return Err(bad_request("Cannot specify both channel_id and dm_id"));
        },
        (None, None) => {
            return Err(bad_request("Must specify either channel_id or dm_id"));
        },
        (Some(c), None) => Target::Channel(c),
        (None, Some(d)) => Target::Dm(d),
    };
    if is_blank(content) {
        return Err(bad_request("Message content cannot be empty"));
    }
    Ok(target)
}

/// A request to edit a message.
pub struct UpdateMessageRequest {
    pub content: String,
}

/// Checks an edit of a message: the new content may not be blank.
pub fn check_message_update(req: &UpdateMessageRequest) -> (r: Result<(), ApiError>)
    ensures
        !is_blank_spec(req.content@) ==> r is Ok,
        is_blank_spec(req.content@) ==> (r matches Err(e) && e@ == ApiErrorView::BadRequest(
            "Message content cannot be empty"@,
        )),
{
    if is_blank(req.content.as_str()) {
        return Err(bad_request("Message content cannot be empty"));
    }
    Ok(())
}

/// Refuses to show or post to a channel that the user is not a member of.
pub fn require_channel_member(is_member: bool) -> (r: Result<(), ApiError>)
    ensures
        is_member ==> r is Ok,
        !is_member ==> (r matches Err(e) && e@ == ApiErrorView::Authorization(
            "You are not a member of this channel"@,
        )),
{
    if is_member {
        Ok(())
    } else {
        Err(forbidden("You are not a member of this channel"))
    }
}

/// The refusal answered when a user edits (or deletes) another user's message.
pub open spec fn not_owner_error(deleting: bool) -> ApiErrorView {
    ApiErrorView::Authorization(
        if deleting {
            "You can only delete your own messages"@
        } else {
            "You can only edit your own messages"@
        },
    )
}

/// Checks that `user_id` wrote the message that it edits or deletes.
pub fn check_message_owner(author_id: u128, user_id: u128, deleting: bool) -> (r: Result<
    (),
    ApiError,
>)
    ensures
        author_id == user_id ==> r is Ok,
        author_id != user_id ==> (r matches Err(e) && e@ == not_owner_error(deleting)),
{
    if author_id == user_id {
        Ok(())
    } else if deleting {
        Err(forbidden("You can only delete your own messages"))
    } else {
        Err(forbidden("You can only edit your own messages"))
    }
}

/// The kinds of mention a message can hold.
#[derive(Clone, Copy, PartialEq, Eq, Debug)]
pub enum MentionKind {
    User,
    Channel,
    Here,
    Everyone,
    Group,
}

/// Who a mention notifies.
#[derive(Clone, Copy, PartialEq, Eq, Debug)]
pub enum Audience {
    Nobody,
    /// One user.
    User(u128),
    /// The members of a channel other than the sender.
    ChannelMembers(u128),
    /// The members of a user group other than the sender.
    GroupMembers(u128),
}

/// Who a mention in a message from `sender` notifies: a mentioned user unless it
/// is the sender; the channel's members for `@channel`, `@here` and `@everyone`
/// when the message is in a channel; a mentioned group's members.
pub open spec fn audience_spec(
    kind: MentionKind,
    mentioned_user_id: Option<u128>,
    mentioned_group_id: Option<u128>,
    message_channel_id: Option<u128>,
    sender: u128,
) -> Audience {
    match kind {
        MentionKind::User => match mentioned_user_id {
            Some(u) => if u != sender {
                Audience::User(u)
            } else {
                Audience::Nobody
            },
            None => Audience::Nobody,
        },
        MentionKind::Group => match mentioned_group_id {
            Some(g) => Audience::GroupMembers(g),
            None => Audience::Nobody,
        },
        _ => match message_channel_id {
            Some(c) => Audience::ChannelMembers(c),
            None => Audience::Nobody,
        },
    }
}

/// Who a mention notifies.
pub fn mention_audience(
    kind: MentionKind,
    mentioned_user_id: Option<u128>,
    mentioned_group_id: Option<u128>,
    message_channel_id: Option<u128>,
    sender: u128,
) -> (a: Audience)
    ensures
        a == audience_spec(kind, mentioned_user_id, mentioned_group_id, message_channel_id, sender),
{
    match kind {
        MentionKind::User => match mentioned_user_id {
            Some(u) => if u != sender {
                Audience::User(u)
            } else {
                Audience::Nobody
            },
            None => Audience::Nobody,
        },
        MentionKind::Group => match mentioned_group_id {
            Some(g) => Audience::GroupMembers(g),
            None => Audience::Nobody,
        },
        _ => match message_channel_id {
            Some(c) => Audience::ChannelMembers(c),
            None => Audience::Nobody,
        },
    }
}

/// The author of the message replied to, notified of a reply unless it is their own.
pub fn thread_reply_recipient(parent_author: Option<u128>, sender: u128) -> (r: Option<u128>)
    ensures
        r == match parent_author {
            Some(a) => if a != sender {
                Some(a)
            } else {
                None::<u128>
            },
            None => None::<u128>,
        },
{
    match parent_author {
        Some(a) => if a != sender {
            Some(a)
        } else {
            None
        },
        None => None,
    }
}

/// A user's cached unread-notification count after it is decremented to
/// `new_count`: a count below zero is put back to zero (and stored so, `true`),
/// any other count stays.
pub fn count_after_decrement(new_count: i32) -> (r: (i32, bool))
    ensures
        new_count < 0 ==> r == (0i32, true),
        new_count >= 0 ==> r == (new_count, false),
{
    if new_count < 0 {
        (0, true)
    } else {
        (new_count, false)
    }
}

/// The messages cache that a change to a message in a channel, or else a DM, invalidates.
pub open spec fn messages_key_spec(org_id: u128, channel_id: Option<u128>, dm_id: Option<u128>) -> Option<
    Seq<char>,
> {
    match channel_id {
        Some(c) => Some(org_key_spec(org_id, ":channel_messages:"@, c)),
        None => match dm_id {
            Some(d) => Some(org_key_spec(org_id, ":dm_messages:"@, d)),
            None => None,
        },
    }
}

/// The key of the messages cache that a change to a message invalidates.
pub fn messages_cache_key_for(org_id: u128, channel_id: Option<u128>, dm_id: Option<u128>) -> (r:
    Option<String>)
    ensures
        match messages_key_spec(org_id, channel_id, dm_id) {
            Some(k) => r matches Some(s) && s@ == k,
            None => r is None,
        },
{
    match channel_id {
        Some(c) => Some(channel_messages_cache_key(org_id, c)),
        None => match dm_id {
            Some(d) => Some(dm_messages_cache_key(org_id, d)),
            None => None,
        },
    }
}

/// The query of a page of messages: its size, and where it starts.
pub struct ListMessagesQuery {
    pub limit: Option<i64>,
    pub cursor: Option<String>,
}

/// The size of a page of messages (50 unless asked) and whether the cached first
/// page may answer: only when no cursor is given.
pub fn message_page(query: &ListMessagesQuery) -> (r: (i64, bool))
    ensures
        r.0 == match query.limit {
            Some(l) => l,
            None => 50,
        },
        r.1 == query.cursor is None,
{
    let l = match query.limit {
        Some(l) => l,
        None => 50,
    };
    (l, query.cursor.is_none())
}

/// The positions in `items` of the entries equal to `key`, in order.
pub open spec fn positions(items: Seq<u128>, key: u128) -> Seq<usize>
    decreases items.len(),
{
    if items.len() == 0 {
        seq![]
    } else {
        let rest = positions(items.drop_last(), key);
        if items.last() == key {
            rest.push((items.len() - 1) as usize)
        } else {
            rest
        }
    }
}

/// For each message of `message_ids`, the positions of the items (reactions,
/// attachments) that belong to it, `item_message_ids` giving the message of each
/// item; each group keeps the items' order.
pub fn group_by_message(message_ids: &Vec<u128>, item_message_ids: &Vec<u128>) -> (groups: Vec<
    Vec<usize>,
>)
    ensures
        groups@.len() == message_ids@.len(),
        forall|i: int|
            0 <= i < message_ids@.len() ==> (#[trigger] groups@[i])@ == positions(
                item_message_ids@,
                message_ids@[i],
            ),
{
    let mut groups: Vec<Vec<usize>> = Vec::new();
    let mut i: usize = 0;
    while i < message_ids.len()
        invariant
            i <= message_ids@.len(),
            groups@.len() == i,
            forall|k: int|
                0 <= k < i ==> (#[trigger] groups@[k])@ == positions(
                    item_message_ids@,
                    message_ids@[k],
                ),
        decreases message_ids.len() - i,
    {
        let key = message_ids[i];
        let mut g: Vec<usize> = Vec::new();
        let mut j: usize = 0;
        while j < item_message_ids.len()
            invariant
                j <= item_message_ids@.len(),
                g@ == positions(item_message_ids@.take(j as int), key),
            decreases item_message_ids.len() - j,
        {
            proof {
                assert(item_message_ids@.take(j + 1).drop_last() == item_message_ids@.take(
                    j as int,
                ));
            }
            if item_message_ids[j] == key {
                g.push(j);
            }
            j = j + 1;
        }
        proof {
            assert(item_message_ids@.take(item_message_ids@.len() as int) == item_message_ids@);
        }
        groups.push(g);
        i = i + 1;
    }
    groups
}

/// The reply count shown with a message (0 when none was counted), and whether
/// its first reply is shown: only when it has replies and the first was found.
pub fn reply_summary(reply_count: Option<i64>, first_reply_found: bool) -> (r: (i64, bool))
    ensures
        r.0 == match reply_count {
            Some(c) => c,
            None => 0,
        },
        r.1 == (reply_count matches Some(c) && c > 0 && first_reply_found),
{
    match reply_count {
        Some(c) => (c, c > 0 && first_reply_found),
        None => (0, false),
    }
}

/// The sender of a message is never notified of it: not through a mention of
/// a user, nor among the channel or group members notified or sent unread
/// counts (those are `others(members, sender)`), while every other member is.
pub proof fn law_sender_never_notified(
    kind: MentionKind,
    mentioned_user_id: Option<u128>,
    mentioned_group_id: Option<u128>,
    message_channel_id: Option<u128>,
    sender: u128,
    members: Seq<u128>,
    member: u128,
)
    ensures
        audience_spec(kind, mentioned_user_id, mentioned_group_id, message_channel_id, sender)
            != Audience::User(sender),
        !others(members, sender).contains(sender),
        members.contains(member) && member != sender ==> others(members, sender).contains(member),
{
    lemma_others_contains(members, sender, sender);
    lemma_others_contains(members, sender, member);
}

} // verus!
