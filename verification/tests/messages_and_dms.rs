use openchat_core::commands::Target;
use openchat_core::direct_messages::{check_dm_users, dm_participants, require_dm_participant};
use openchat_core::errors::ApiError;
use openchat_core::message_actions::{
    check_draft, check_reaction, check_receipt_access, check_reaction_access, check_schedule,
    check_scheduled_change, draft_delete_status, draft_response, pin_channel, plan_receipt_batch,
    AddReactionRequest, MessagePlace,
};
use openchat_core::messaging::{
    check_message_owner, count_after_decrement, check_message_update, check_send_message, group_by_message,
    mention_audience, message_page, messages_cache_key_for, reply_summary,
    require_channel_member, thread_reply_recipient, Audience, ListMessagesQuery, MentionKind,
    UpdateMessageRequest,
};

fn msg(e: ApiError) -> String {
    e.message()
}

#[test]
fn sending_needs_one_place_and_some_content() {
    assert_eq!(check_send_message(Some(1), None, "hi").unwrap(), Target::Channel(1));
    assert_eq!(check_send_message(None, Some(2), "hi").unwrap(), Target::Dm(2));
    assert_eq!(
        msg(check_send_message(Some(1), Some(2), "hi").unwrap_err()),
        "Bad request: Cannot specify both channel_id and dm_id"
    );
    assert_eq!(
        msg(check_send_message(None, None, "hi").unwrap_err()),
        "Bad request: Must specify either channel_id or dm_id"
    );
    assert_eq!(
        msg(check_send_message(Some(1), None, " \n\t").unwrap_err()),
        "Bad request: Message content cannot be empty"
    );
    // placement is checked before content
    assert_eq!(
        msg(check_send_message(None, None, "").unwrap_err()),
        "Bad request: Must specify either channel_id or dm_id"
    );
}

#[test]
fn edits_and_ownership() {
    assert!(check_message_update(&UpdateMessageRequest { content: "x".into() }).is_ok());
    assert!(check_message_update(&UpdateMessageRequest { content: "  ".into() }).is_err());
    assert!(require_channel_member(true).is_ok());
    assert_eq!(
        msg(require_channel_member(false).unwrap_err()),
        "Authorization error: You are not a member of this channel"
    );
    assert!(check_message_owner(5, 5, true).is_ok());
    assert_eq!(
        msg(check_message_owner(5, 6, false).unwrap_err()),
        "Authorization error: You can only edit your own messages"
    );
    assert_eq!(
        msg(check_message_owner(5, 6, true).unwrap_err()),
        "Authorization error: You can only delete your own messages"
    );
}

#[test]
fn mentions_notify_everyone_but_the_sender() {
    let s = 9;
    assert_eq!(mention_audience(MentionKind::User, Some(3), None, Some(1), s), Audience::User(3));
    assert_eq!(mention_audience(MentionKind::User, Some(s), None, Some(1), s), Audience::Nobody);
    assert_eq!(mention_audience(MentionKind::User, None, None, Some(1), s), Audience::Nobody);
    assert_eq!(mention_audience(MentionKind::Here, None, None, Some(1), s), Audience::ChannelMembers(1));
    assert_eq!(mention_audience(MentionKind::Channel, None, None, Some(1), s), Audience::ChannelMembers(1));
    assert_eq!(mention_audience(MentionKind::Everyone, None, None, None, s), Audience::Nobody);
    assert_eq!(mention_audience(MentionKind::Group, None, Some(4), None, s), Audience::GroupMembers(4));
    assert_eq!(mention_audience(MentionKind::Group, None, None, Some(1), s), Audience::Nobody);
    assert_eq!(thread_reply_recipient(Some(3), s), Some(3));
    assert_eq!(thread_reply_recipient(Some(s), s), None);
    assert_eq!(thread_reply_recipient(None, s), None);
}

#[test]
fn message_caches_and_pages() {
    assert_eq!(
        messages_cache_key_for(1, Some(2), Some(3)).unwrap(),
        "openchat:org:00000000-0000-0000-0000-000000000001:channel_messages:00000000-0000-0000-0000-000000000002"
    );
    assert_eq!(
        messages_cache_key_for(1, None, Some(3)).unwrap(),
        "openchat:org:00000000-0000-0000-0000-000000000001:dm_messages:00000000-0000-0000-0000-000000000003"
    );
    assert_eq!(messages_cache_key_for(1, None, None), None);
    assert_eq!(message_page(&ListMessagesQuery { limit: None, cursor: None }), (50, true));
    assert_eq!(message_page(&ListMessagesQuery { limit: Some(10), cursor: Some("c".into()) }), (10, false));
}

#[test]
fn reactions_are_grouped_by_message_in_order() {
    let messages = vec![10, 20, 30];
    let reactions_of = vec![20, 10, 20, 40, 10];
    let g = group_by_message(&messages, &reactions_of);
    assert_eq!(g, vec![vec![1, 4], vec![0, 2], vec![]]);
    assert_eq!(group_by_message(&vec![], &reactions_of), Vec::<Vec<usize>>::new());
    assert_eq!(reply_summary(Some(3), true), (3, true));
    assert_eq!(reply_summary(Some(3), false), (3, false));
    assert_eq!(reply_summary(Some(0), true), (0, false));
    assert_eq!(reply_summary(None, true), (0, false));
}

#[test]
fn new_dms_include_their_creator_once_sorted() {
    assert_eq!(dm_participants(&vec![5, 3, 5, 9], 4).unwrap(), vec![3, 4, 5, 9]);
    assert_eq!(dm_participants(&vec![7], 7).unwrap(), vec![7]);
    assert_eq!(
        msg(dm_participants(&vec![], 1).unwrap_err()),
        "Bad request: At least one participant is required"
    );
}

#[test]
fn dm_participants_must_exist_in_the_organization() {
    assert!(check_dm_users(&vec![(1, Some(8)), (2, Some(8))], 8).is_ok());
    assert_eq!(
        msg(check_dm_users(&vec![(1, Some(8)), (2, None), (3, Some(9))], 8).unwrap_err()),
        "Not found: User 00000000-0000-0000-0000-000000000002 not found"
    );
    assert_eq!(
        msg(check_dm_users(&vec![(1, Some(9)), (2, None)], 8).unwrap_err()),
        "Authorization error: Cannot create DM with users from different organizations"
    );
    assert!(require_dm_participant(true).is_ok());
    assert_eq!(
        msg(require_dm_participant(false).unwrap_err()),
        "Authorization error: You are not a participant in this DM"
    );
}

#[test]
fn drafts() {
    assert_eq!(check_draft(Some(1), None, "x").unwrap(), Target::Channel(1));
    assert_eq!(check_draft(None, Some(2), "x").unwrap(), Target::Dm(2));
    assert_eq!(msg(check_draft(None, None, "x").unwrap_err()), "Bad request: Either channel_id or dm_id must be provided");
    assert_eq!(msg(check_draft(Some(1), Some(2), "x").unwrap_err()), "Bad request: Only one of channel_id or dm_id can be provided");
    assert_eq!(msg(check_draft(Some(1), None, " ").unwrap_err()), "Bad request: Content cannot be empty");
    assert_eq!(draft_delete_status(true), 204);
    assert_eq!(draft_delete_status(false), 404);
    let d = draft_response(1, None, Some(2), "c".into(), "t".into());
    assert_eq!(d.id, "00000000-0000-0000-0000-000000000001");
    assert_eq!(d.channel_id, None);
    assert_eq!(d.dm_id.as_deref(), Some("00000000-0000-0000-0000-000000000002"));
    assert_eq!((d.content.as_str(), d.updated_at.as_str()), ("c", "t"));
}

#[test]
fn scheduled_messages() {
    assert_eq!(check_schedule(Some(1), None, "x", 11, 10).unwrap(), Target::Channel(1));
    assert_eq!(msg(check_schedule(Some(1), Some(2), "x", 11, 10).unwrap_err()), "Bad request: Exactly one of channel_id or dm_id must be provided");
    assert_eq!(msg(check_schedule(None, None, "x", 11, 10).unwrap_err()), "Bad request: Exactly one of channel_id or dm_id must be provided");
    assert_eq!(msg(check_schedule(None, Some(2), "", 11, 10).unwrap_err()), "Bad request: Content must not be empty");
    assert_eq!(msg(check_schedule(None, Some(2), "x", 10, 10).unwrap_err()), "Bad request: scheduled_at must be in the future");
    assert!(check_scheduled_change(1, 1, false, false, Some(20), 10).is_ok());
    assert!(check_scheduled_change(1, 1, false, true, Some(5), 10).is_ok());
    assert_eq!(msg(check_scheduled_change(1, 2, false, false, None, 10).unwrap_err()), "Authorization error: Not authorized to update this scheduled message");
    assert_eq!(msg(check_scheduled_change(1, 2, true, true, None, 10).unwrap_err()), "Authorization error: Not authorized to delete this scheduled message");
    assert_eq!(msg(check_scheduled_change(1, 1, true, false, None, 10).unwrap_err()), "Bad request: Cannot update a sent scheduled message");
    assert_eq!(msg(check_scheduled_change(1, 1, true, true, None, 10).unwrap_err()), "Bad request: Cannot delete a sent scheduled message");
    assert_eq!(msg(check_scheduled_change(1, 1, false, false, Some(10), 10).unwrap_err()), "Bad request: scheduled_at must be in the future");
}

#[test]
fn reactions_receipts_and_pins() {
    assert!(check_reaction(&AddReactionRequest { emoji: "👍".into() }).is_ok());
    assert_eq!(msg(check_reaction(&AddReactionRequest { emoji: "  ".into() }).unwrap_err()), "Bad request: Emoji cannot be empty");
    assert!(check_reaction(&AddReactionRequest { emoji: "a".repeat(50) }).is_ok());
    // 13 four-byte characters: 52 bytes
    assert_eq!(msg(check_reaction(&AddReactionRequest { emoji: "😀".repeat(13) }).unwrap_err()), "Bad request: Emoji too long");
    assert!(check_reaction_access(MessagePlace::Channel { is_member: true }).is_ok());
    assert_eq!(msg(check_reaction_access(MessagePlace::Channel { is_member: false }).unwrap_err()), "Authorization error: You are not a member of this channel");
    assert_eq!(msg(check_reaction_access(MessagePlace::Dm { is_participant: false }).unwrap_err()), "Authorization error: You are not a participant in this DM");
    assert_eq!(msg(check_reaction_access(MessagePlace::Nowhere).unwrap_err()), "Internal server error: Message has neither channel_id nor dm_id");
    assert!(check_receipt_access(MessagePlace::Dm { is_participant: true }).is_ok());
    assert_eq!(msg(check_receipt_access(MessagePlace::Dm { is_participant: false }).unwrap_err()), "Authorization error: You are not part of this DM");
    assert_eq!(msg(check_receipt_access(MessagePlace::Nowhere).unwrap_err()), "Bad request: Message has no channel or DM");
    assert_eq!(plan_receipt_batch(true, 0).unwrap(), false);
    assert_eq!(plan_receipt_batch(false, 2).unwrap(), true);
    assert_eq!(msg(plan_receipt_batch(false, 0).unwrap_err()), "Bad request: message_ids cannot be empty");
    assert_eq!(pin_channel(Some(3), false).unwrap(), 3);
    assert_eq!(msg(pin_channel(None, false).unwrap_err()), "Bad request: Cannot pin messages in DMs");
    assert_eq!(msg(pin_channel(None, true).unwrap_err()), "Bad request: Cannot unpin messages in DMs");
}

#[test]
fn participant_lists_do_not_depend_on_how_they_are_asked() {
    let a = dm_participants(&vec![5, 3], 1).unwrap();
    let b = dm_participants(&vec![3, 5, 1, 3], 1).unwrap();
    assert_eq!(a, b);
    assert_eq!(a, vec![1, 3, 5]);
}

#[test]
fn notification_counts_never_go_below_zero() {
    assert_eq!(count_after_decrement(-1), (0, true));
    assert_eq!(count_after_decrement(0), (0, false));
    assert_eq!(count_after_decrement(4), (4, false));
}
