use openchat_core::accounts::{
    apply_profile_update, check_account_status, check_new_group, check_notification_preference,
    check_own_account, check_presence, check_role_change, check_status_visible, default_preference,
    default_presence, require_group_found, status_clear_at, validate_handle, RoleChange,
    UpdateStatusRequest, UpdateUserRequest,
};
use openchat_core::admin::{
    check_bookmark_access, check_device, check_encryption_admin, check_hold_lifted,
    check_new_legal_hold, check_remind_at, check_reminder_delete, check_retention_policy,
    check_section_name, encryption_status, reminder_preview, require_device_header, require_reader,
    require_section_found, sections_to_create,
};
use openchat_core::channels::{
    check_channel_creator, check_join_channel, check_new_channel, member_role,
    CreateChannelRequest, CreatorAction,
};
use openchat_core::workflows::{
    check_execution_workflow, check_form, check_webhook_trigger, check_workflow_name,
    require_workflow_org, valid_action_types, valid_trigger_types, validate_action_type,
    validate_new_workflow, validate_step_actions, validate_trigger_type, validate_workflow_update,
};

fn s(v: &[&str]) -> Vec<String> {
    v.iter().map(|x| x.to_string()).collect()
}

#[test]
fn channels() {
    let req = |t: &str| CreateChannelRequest { name: "n".into(), description: None, channel_type: t.into() };
    assert!(check_new_channel(&req("public")).is_ok());
    assert!(check_new_channel(&req("private")).is_ok());
    assert_eq!(check_new_channel(&req("secret")).unwrap_err().message(), "Bad request: Channel type must be 'public' or 'private'");
    assert!(check_channel_creator(1, 1, CreatorAction::Delete).is_ok());
    let m = |a| check_channel_creator(1, 2, a).unwrap_err().message();
    assert_eq!(m(CreatorAction::Update), "Authorization error: Only channel creator can update the channel");
    assert_eq!(m(CreatorAction::Delete), "Authorization error: Only channel creator can delete the channel");
    assert_eq!(m(CreatorAction::AddMember), "Authorization error: Only channel creator can add members");
    assert_eq!(m(CreatorAction::RemoveMember), "Authorization error: Only channel creator can remove members");
    assert_eq!(member_role(None), "member");
    assert_eq!(member_role(Some("admin")), "admin");
}

#[test]
fn joining_channels() {
    assert!(check_join_channel(1, 1, "public", false).is_ok());
    assert_eq!(check_join_channel(1, 2, "public", false).unwrap_err().message(), "Authorization error: Channel does not belong to your organization");
    assert_eq!(check_join_channel(1, 1, "private", false).unwrap_err().message(), "Bad request: Only public channels can be joined. Private channels require an invitation.");
    assert_eq!(check_join_channel(1, 1, "public", true).unwrap_err().message(), "Bad request: You are already a member of this channel");
}

#[test]
fn workflow_types() {
    assert_eq!(valid_trigger_types(), s(&["message_posted", "reaction_added", "channel_join", "scheduled", "webhook", "slash_command"]));
    assert_eq!(valid_action_types().len(), 8);
    assert!(validate_trigger_type("webhook").is_ok());
    assert_eq!(
        validate_trigger_type("cron").unwrap_err().message(),
        "Bad request: Invalid trigger type: cron. Must be one of: message_posted, reaction_added, channel_join, scheduled, webhook, slash_command"
    );
    assert!(validate_action_type("delay").is_ok());
    assert_eq!(
        validate_action_type("explode").unwrap_err().message(),
        "Bad request: Invalid action type: explode. Must be one of: send_message, create_form, call_webhook, add_reaction, create_channel, invite_to_channel, update_channel_topic, delay"
    );
    assert!(validate_step_actions(&s(&["send_message", "delay"])).is_ok());
    assert!(validate_step_actions(&vec![]).is_ok());
    let e = validate_step_actions(&s(&["delay", "bad1", "bad2"])).unwrap_err();
    assert!(e.message().starts_with("Bad request: Invalid action type: bad1."));
}

#[test]
fn workflows_are_checked() {
    assert!(check_workflow_name("Daily digest").is_ok());
    assert_eq!(check_workflow_name("   ").unwrap_err().message(), "Bad request: Workflow name must be 1-255 characters");
    assert!(check_workflow_name(&"x".repeat(255)).is_ok());
    assert!(check_workflow_name(&"x".repeat(256)).is_err());
    assert!(validate_new_workflow("W", "webhook", &s(&["send_message"])).is_ok());
    assert_eq!(validate_new_workflow("", "nope", &s(&["nope"])).unwrap_err().message(), "Bad request: Workflow name must be 1-255 characters");
    assert!(validate_new_workflow("W", "nope", &s(&["nope"])).unwrap_err().message().contains("Invalid trigger type: nope"));
    assert!(validate_new_workflow("W", "webhook", &s(&["nope"])).unwrap_err().message().contains("Invalid action type: nope"));
    assert!(validate_workflow_update(None, None).is_ok());
    assert!(validate_workflow_update(Some(""), Some("webhook")).is_err());
    assert!(validate_workflow_update(Some("ok"), Some("nope")).is_err());
    assert!(require_workflow_org(1, 1).is_ok());
    assert_eq!(require_workflow_org(1, 2).unwrap_err().message(), "Authorization error: Workflow does not belong to your organization");
    assert_eq!(check_execution_workflow(1, 2).unwrap_err().message(), "Not found: Execution not found for this workflow");
    assert!(check_webhook_trigger(true, "webhook").is_ok());
    assert_eq!(check_webhook_trigger(false, "webhook").unwrap_err().message(), "Bad request: Workflow is not enabled");
    assert_eq!(check_webhook_trigger(true, "scheduled").unwrap_err().message(), "Bad request: This workflow does not have a webhook trigger");
}

#[test]
fn forms_are_submitted_once() {
    assert!(check_form(1, 1, "pending", true).is_ok());
    assert!(check_form(1, 1, "submitted", false).is_ok());
    assert_eq!(check_form(1, 1, "submitted", true).unwrap_err().message(), "Bad request: Form has already been submitted");
    assert_eq!(check_form(1, 2, "pending", true).unwrap_err().message(), "Authorization error: You are not the target of this form");
}

#[test]
fn accounts() {
    assert!(check_own_account(1, 1, false).is_ok());
    assert_eq!(check_own_account(1, 2, false).unwrap_err().message(), "Authorization error: You can only update your own profile");
    assert_eq!(check_own_account(1, 2, true).unwrap_err().message(), "Authorization error: You can only update your own status");
    assert!(check_account_status(&UpdateStatusRequest { status: "away".into() }).is_ok());
    assert_eq!(check_account_status(&UpdateStatusRequest { status: "dnd".into() }).unwrap_err().message(), "Bad request: Status must be 'online', 'offline', or 'away'");
    assert!(check_presence("dnd").is_ok());
    assert_eq!(check_presence("busy").unwrap_err().message(), "Bad request: Status must be 'online', 'offline', 'away', or 'dnd'");
    assert_eq!(status_clear_at(1000, Some(30)), Some(2800));
    assert_eq!(status_clear_at(1000, Some(0)), None);
    assert_eq!(status_clear_at(1000, Some(-5)), None);
    assert_eq!(status_clear_at(1000, None), None);
    assert_eq!(default_presence(), "offline");
    assert!(check_status_visible(1, 1).is_ok());
    assert_eq!(check_status_visible(1, 2).unwrap_err().message(), "Authorization error: Cannot view status of users in other organizations");
    assert!(check_notification_preference("mentions").is_ok());
    assert_eq!(check_notification_preference("some").unwrap_err().message(), "Bad request: preference must be 'all', 'mentions', or 'nothing'");
    assert_eq!(default_preference(), "all");
    let (n, a) = apply_profile_update("Old".into(), Some("old.png".into()), &UpdateUserRequest { display_name: Some("New".into()), avatar_url: None });
    assert_eq!((n.as_str(), a.as_deref()), ("New", Some("old.png")));
    let (n, a) = apply_profile_update("Old".into(), None, &UpdateUserRequest { display_name: None, avatar_url: Some("a.png".into()) });
    assert_eq!((n.as_str(), a.as_deref()), ("Old", Some("a.png")));
}

#[test]
fn groups_and_roles() {
    assert!(validate_handle("dev-team_2").is_ok());
    let bad = "Bad request: Handle must contain only lowercase letters, numbers, hyphens, and underscores";
    assert_eq!(validate_handle("Dev").unwrap_err().message(), bad);
    assert_eq!(validate_handle("").unwrap_err().message(), bad);
    assert_eq!(validate_handle("a b").unwrap_err().message(), bad);
    assert_eq!(validate_handle("ok\n").unwrap_err().message(), bad);
    assert!(check_new_group("Devs", "devs").is_ok());
    assert_eq!(check_new_group(" ", "devs").unwrap_err().message(), "Bad request: Group name cannot be empty");
    assert_eq!(check_new_group("Devs", "DEVS").unwrap_err().message(), bad);
    assert!(require_group_found(true, true).is_ok());
    assert_eq!(require_group_found(false, false).unwrap_err().message(), "Not found: Group not found");
    assert_eq!(require_group_found(false, true).unwrap_err().message(), "Not found: Member not found in group");
    assert!(check_role_change(false, RoleChange::Delete).is_ok());
    assert_eq!(check_role_change(true, RoleChange::Update).unwrap_err().message(), "Bad request: Cannot update system roles");
    assert_eq!(check_role_change(true, RoleChange::Delete).unwrap_err().message(), "Bad request: Cannot delete system roles");
    assert_eq!(check_role_change(true, RoleChange::AssignPermissions).unwrap_err().message(), "Bad request: Cannot modify permissions for system roles");
}

#[test]
fn retention_and_devices() {
    assert!(check_retention_policy("files", 30).is_ok());
    assert_eq!(check_retention_policy("logs", 30).unwrap_err().message(), "Bad request: policy_type must be 'messages' or 'files'");
    assert_eq!(check_retention_policy("messages", 0).unwrap_err().message(), "Bad request: retention_days must be greater than 0");
    assert!(check_new_legal_hold(true, false).is_ok());
    assert_eq!(check_new_legal_hold(false, false).unwrap_err().message(), "Not found: Channel not found");
    assert_eq!(check_new_legal_hold(true, true).unwrap_err().message(), "Bad request: Channel already has an active legal hold");
    assert!(check_hold_lifted(1).is_ok());
    assert_eq!(check_hold_lifted(0).unwrap_err().message(), "Not found: No active legal hold found for this channel");
    assert!(check_device("phone-1", "ik", "sk").is_ok());
    assert_eq!(check_device("", "ik", "sk").unwrap_err().message(), "Bad request: device_id must be 1-64 characters");
    assert!(check_device(&"d".repeat(64), "ik", "sk").is_ok());
    assert!(check_device(&"d".repeat(65), "ik", "sk").is_err());
    assert_eq!(check_device("d", "", "sk").unwrap_err().message(), "Bad request: identity_key and signing_key are required");
    assert_eq!(require_device_header(Some("d1")).unwrap(), "d1");
    assert_eq!(require_device_header(None).unwrap_err().message(), "Bad request: X-Device-Id header required");
    assert!(check_encryption_admin(Some("admin"), false).is_ok());
    assert!(check_encryption_admin(Some("owner"), false).is_ok());
    assert!(check_encryption_admin(Some("member"), true).is_ok());
    assert_eq!(check_encryption_admin(Some("member"), false).unwrap_err().message(), "Authorization error: Only channel admins can enable encryption");
    assert_eq!(check_encryption_admin(None, true).unwrap_err().message(), "Authorization error: Not a channel member");
    let on = encryption_status(Some((true, "megolm".into(), 100, 604800000)));
    assert!(on.encryption_enabled);
    assert_eq!(on.algorithm.as_deref(), Some("megolm"));
    assert_eq!((on.rotation_period_msgs, on.rotation_period_ms), (Some(100), Some(604800000)));
    let off = encryption_status(None);
    assert!(!off.encryption_enabled && off.algorithm.is_none() && off.rotation_period_msgs.is_none());
}

#[test]
fn sections_reminders_bookmarks() {
    assert!(check_section_name("Work").is_ok());
    assert_eq!(check_section_name("").unwrap_err().message(), "Bad request: Section name cannot be empty");
    assert_eq!(sections_to_create(0), s(&["Starred", "Channels"]));
    assert!(sections_to_create(3).is_empty());
    assert_eq!(require_section_found(false, false).unwrap_err().message(), "Not found: Section not found");
    assert_eq!(require_section_found(false, true).unwrap_err().message(), "Not found: Channel not found in section");
    assert!(check_remind_at(11, 10).is_ok());
    assert_eq!(check_remind_at(10, 10).unwrap_err().message(), "Bad request: remind_at must be in the future");
    assert_eq!(reminder_preview("short"), "short");
    assert_eq!(reminder_preview(&"a".repeat(100)), "a".repeat(100));
    assert_eq!(reminder_preview(&"b".repeat(150)), format!("{}...", "b".repeat(100)));
    assert_eq!(reminder_preview(&format!("{}é", "c".repeat(98))), format!("{}é", "c".repeat(98)));
    assert!(check_reminder_delete(1, 1, false).is_ok());
    assert_eq!(check_reminder_delete(1, 2, false).unwrap_err().message(), "Authorization error: Not authorized to delete this reminder");
    assert_eq!(check_reminder_delete(1, 1, true).unwrap_err().message(), "Bad request: Cannot delete a completed reminder");
    assert!(check_bookmark_access(Some(true)).is_ok());
    assert!(check_bookmark_access(None).is_ok());
    assert_eq!(check_bookmark_access(Some(false)).unwrap_err().message(), "Authorization error: You don't have access to this message");
    assert_eq!(require_reader(false, false).unwrap_err().message(), "Authorization error: User is not a member of this channel");
    assert_eq!(require_reader(false, true).unwrap_err().message(), "Authorization error: User is not a participant of this DM");
}
