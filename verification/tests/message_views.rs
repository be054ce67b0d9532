use openchat_core::message_views::{
    enrich_message, find_user, page_response, thread_response, AttachmentResponse, AttachmentRow,
    MessageResponse, MessageRow, PageRows, ReactionResponse, UserResponse,
};
use openchat_core::workflows::{step_orders, workflow_response, WorkflowRow, WorkflowStepResponse};

fn message(id: u128, user_id: u128, content: &str) -> MessageRow {
    MessageRow {
        id,
        channel_id: Some(100),
        dm_id: None,
        user_id,
        content: content.to_string(),
        parent_message_id: None,
        created_at: "2024-01-01T00:00:00+00:00".to_string(),
        edited_at: None,
    }
}

fn user(id: u128, name: &str) -> UserResponse {
    UserResponse {
        id,
        email: format!("{}@example.com", name),
        display_name: name.to_string(),
        org_id: 7,
        tv_user_id: id + 1000,
        status: "online".to_string(),
        created_at: "2024-01-01T00:00:00+00:00".to_string(),
        updated_at: "2024-01-01T00:00:00+00:00".to_string(),
    }
}

fn reaction(id: u128, message_id: u128, emoji: &str) -> ReactionResponse {
    ReactionResponse {
        id,
        message_id,
        user_id: 2,
        emoji: emoji.to_string(),
        created_at: "2024-01-01T00:00:01+00:00".to_string(),
    }
}

fn attachment(id: u128, message_id: u128, name: &str) -> AttachmentRow {
    AttachmentRow {
        message_id,
        attachment: AttachmentResponse {
            id,
            file_name: name.to_string(),
            file_url: format!("/files/{}", name),
            file_type: Some("image/png".to_string()),
            file_size: Some(10),
            created_at: "2024-01-01T00:00:02+00:00".to_string(),
        },
    }
}

fn rows() -> PageRows {
    PageRows {
        users: vec![user(1, "ann"), user(2, "bob")],
        reactions: vec![reaction(50, 10, "👍"), reaction(51, 11, "🎉"), reaction(52, 10, "❤️")],
        reply_counts: vec![(10, 2), (11, 0)],
        first_replies: vec![(10, message(20, 2, "first answer")), (11, message(21, 1, "ignored"))],
        first_reply_users: vec![user(2, "bob")],
        attachments: vec![attachment(60, 11, "a.png"), attachment(61, 10, "b.png")],
    }
}

fn reaction_ids(r: &MessageResponse) -> Vec<u128> {
    r.reactions.iter().map(|x| x.id).collect()
}

#[test]
fn message_is_shown_with_author_reactions_first_reply_and_attachments() {
    let r = enrich_message(&message(10, 1, "hello"), &rows());
    assert_eq!(r.id, 10);
    assert_eq!(r.content, "hello");
    assert_eq!(r.user.as_ref().map(|u| u.display_name.as_str()), Some("ann"));
    assert_eq!(reaction_ids(&r), vec![50, 52]);
    assert_eq!(r.reply_count, 2);
    let first = r.first_reply.as_ref().expect("first reply shown");
    assert_eq!(first.id, 20);
    assert_eq!(first.user.as_ref().map(|u| u.id), Some(2));
    assert!(first.reactions.is_empty() && first.attachments.is_empty() && first.first_reply.is_none());
    assert_eq!(r.attachments.iter().map(|a| a.id).collect::<Vec<_>>(), vec![61]);
}

#[test]
fn zero_replies_show_no_first_reply() {
    let r = enrich_message(&message(11, 2, "hi"), &rows());
    assert_eq!(r.reply_count, 0);
    assert!(r.first_reply.is_none());
    assert_eq!(reaction_ids(&r), vec![51]);
}

#[test]
fn unknown_author_and_no_rows_leave_the_message_bare() {
    let r = enrich_message(&message(12, 9, "alone"), &rows());
    assert!(r.user.is_none());
    assert!(r.reactions.is_empty() && r.attachments.is_empty());
    assert_eq!(r.reply_count, 0);
    assert!(r.first_reply.is_none());
}

#[test]
fn later_user_rows_win() {
    let users = vec![user(1, "old"), user(1, "new")];
    assert_eq!(find_user(&users, 1).map(|u| u.display_name), Some("new".to_string()));
    assert!(find_user(&users, 3).is_none());
}

#[test]
fn page_keeps_order_and_cursor() {
    let page = page_response(
        &vec![message(11, 2, "b"), message(10, 1, "a")],
        true,
        Some("cursor-1".to_string()),
        &rows(),
    );
    assert_eq!(page.messages.iter().map(|m| m.id).collect::<Vec<_>>(), vec![11, 10]);
    assert!(page.has_more);
    assert_eq!(page.next_cursor.as_deref(), Some("cursor-1"));
}

#[test]
fn thread_shows_counts_but_no_attachments() {
    let mut parent = message(10, 1, "question");
    parent.parent_message_id = None;
    let mut reply = message(20, 2, "answer");
    reply.parent_message_id = Some(10);
    let t = thread_response(
        &parent,
        &vec![reply],
        &vec![user(1, "ann"), user(2, "bob")],
        &vec![reaction(50, 10, "👍"), reaction(53, 20, "👀")],
        &vec![(10, 1)],
    );
    assert_eq!(t.parent.reply_count, 1);
    assert_eq!(reaction_ids(&t.parent), vec![50]);
    assert!(t.parent.first_reply.is_none() && t.parent.attachments.is_empty());
    assert_eq!(t.replies.len(), 1);
    assert_eq!(t.replies[0].user.as_ref().map(|u| u.id), Some(2));
    assert_eq!(t.replies[0].reply_count, 0);
    assert_eq!(reaction_ids(&t.replies[0]), vec![53]);
}

#[test]
fn new_steps_are_numbered_from_zero() {
    assert_eq!(step_orders(3), vec![0, 1, 2]);
    assert!(step_orders(0).is_empty());
}

#[test]
fn workflow_is_shown_with_its_steps() {
    let w = WorkflowRow {
        id: 1,
        org_id: 2,
        name: "Welcome".to_string(),
        description: None,
        trigger_type: "member_joined".to_string(),
        trigger_config: "{}".to_string(),
        enabled: true,
        created_by: 3,
        created_at: "2024-01-01T00:00:00+00:00".to_string(),
        updated_at: "2024-01-02T00:00:00+00:00".to_string(),
    };
    let step = WorkflowStepResponse {
        id: 9,
        workflow_id: 1,
        step_order: 0,
        action_type: "send_message".to_string(),
        action_config: "{\"text\":\"hi\"}".to_string(),
        created_at: "2024-01-01T00:00:00+00:00".to_string(),
    };
    let r = workflow_response(w, vec![step]);
    assert_eq!(r.name, "Welcome");
    assert_eq!(r.trigger_type, "member_joined");
    assert!(r.enabled);
    assert_eq!(r.updated_at, "2024-01-02T00:00:00+00:00");
    assert_eq!(r.steps.len(), 1);
    assert_eq!(r.steps[0].action_type, "send_message");
}
