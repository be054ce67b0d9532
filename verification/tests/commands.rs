use openchat_core::commands::{
    builtin_action_for, builtin_commands, check_command_delete, check_command_update,
    command_post_target, list_commands, mute_plan, normalize_command_name, resolve_custom_command,
    trim_leading_slashes, validate_new_command, webhook_command_text, webhook_reply_action,
    CommandAction, CreateCommandRequest, SlashCommand, Target, UpdateCommandRequest,
};
use openchat_core::errors::ApiError;

fn custom(name: &str, enabled: bool, handler: &str, url: Option<&str>) -> SlashCommand {
    SlashCommand {
        id: 77,
        org_id: 1,
        command_name: name.to_string(),
        description: "desc".to_string(),
        usage_hint: Some("[x]".to_string()),
        handler_type: handler.to_string(),
        webhook_url: url.map(|u| u.to_string()),
        response_type: "in_channel".to_string(),
        created_by: 2,
        enabled,
    }
}

fn create_req(name: &str, rt: Option<&str>) -> CreateCommandRequest {
    CreateCommandRequest {
        command_name: name.to_string(),
        description: "d".to_string(),
        usage_hint: None,
        webhook_url: "https://hook".to_string(),
        response_type: rt.map(|s| s.to_string()),
    }
}

fn update_req(rt: Option<&str>) -> UpdateCommandRequest {
    UpdateCommandRequest {
        description: None,
        usage_hint: None,
        webhook_url: None,
        response_type: rt.map(|s| s.to_string()),
        enabled: None,
    }
}

#[test]
fn builtins_are_listed_first() {
    let b = builtin_commands();
    let names: Vec<&str> = b.iter().map(|c| c.name.as_str()).collect();
    assert_eq!(names, vec!["shrug", "tableflip", "me", "mute", "unmute"]);
    assert!(b.iter().all(|c| c.handler_type == "builtin" && c.id.is_none()));
    assert_eq!(b[2].usage_hint.as_deref(), Some("<action>"));
    assert_eq!(b[3].usage_hint, None);
    let all = list_commands(&vec![
        custom("deploy", true, "webhook", Some("u")),
        custom("off", false, "webhook", Some("u")),
    ]);
    assert_eq!(all.len(), 6);
    assert_eq!(all[5].name, "deploy");
    assert_eq!(all[5].id, Some(77));
}

#[test]
fn names_are_normalized() {
    assert_eq!(trim_leading_slashes("//Deploy/now"), "Deploy/now");
    assert_eq!(normalize_command_name("/SHRUG"), "shrug");
    assert_eq!(normalize_command_name("deploy"), "deploy");
}

#[test]
fn builtin_actions() {
    assert!(matches!(builtin_action_for("shrug", "ok"), CommandAction::Post(s) if s == "ok ¯\\_(ツ)_/¯"));
    assert!(matches!(builtin_action_for("shrug", ""), CommandAction::Post(s) if s == "¯\\_(ツ)_/¯"));
    assert!(matches!(builtin_action_for("tableflip", "argh"), CommandAction::Post(s) if s == "argh (╯°□°)╯︵ ┻━┻"));
    assert!(matches!(builtin_action_for("me", "waves"), CommandAction::Post(s) if s == "*waves*"));
    assert!(matches!(builtin_action_for("me", ""), CommandAction::Reply(s) if s == "Usage: /me <action>"));
    assert!(matches!(builtin_action_for("mute", ""), CommandAction::SetMute(true)));
    assert!(matches!(builtin_action_for("unmute", "x"), CommandAction::SetMute(false)));
    assert!(matches!(builtin_action_for("deploy", "x"), CommandAction::Custom));
}

#[test]
fn custom_commands_resolve_to_their_webhook() {
    let c = custom("deploy", true, "webhook", Some("https://h"));
    assert_eq!(resolve_custom_command("deploy", Some(&c)).unwrap(), "https://h");
    let e = resolve_custom_command("deploy", Some(&custom("deploy", false, "webhook", None))).unwrap_err();
    assert_eq!(e.message(), "Bad request: Command /deploy is currently disabled");
    let e = resolve_custom_command("deploy", Some(&custom("deploy", true, "webhook", None))).unwrap_err();
    assert_eq!(e.message(), "Internal server error: Webhook command has no URL configured");
    let e = resolve_custom_command("deploy", Some(&custom("deploy", true, "builtin", None))).unwrap_err();
    assert_eq!(e.message(), "Not found: Unknown command: /deploy");
    let e = resolve_custom_command("nope", None).unwrap_err();
    assert_eq!(e.status_code(), 404);
}

#[test]
fn webhook_replies() {
    assert!(matches!(webhook_reply_action("in_channel", "hi".to_string()), CommandAction::Post(s) if s == "hi"));
    assert!(matches!(webhook_reply_action("ephemeral", "hi".to_string()), CommandAction::Reply(s) if s == "hi"));
    assert_eq!(webhook_command_text("deploy"), "/deploy");
}

#[test]
fn command_targets_and_mute() {
    assert_eq!(command_post_target(Some(1), Some(2)).unwrap(), Target::Channel(1));
    assert_eq!(command_post_target(None, Some(2)).unwrap(), Target::Dm(2));
    let e = command_post_target(None, None).unwrap_err();
    assert_eq!(e.message(), "Bad request: channel_id or dm_id is required");
    let (t, pref, reply) = mute_plan(Some(4), None, true).unwrap();
    assert_eq!((t, pref.as_str(), reply.as_str()), (Target::Channel(4), "nothing", "Channel muted"));
    let (_, pref, reply) = mute_plan(None, Some(4), false).unwrap();
    assert_eq!((pref.as_str(), reply.as_str()), ("all", "Channel unmuted"));
    let e = mute_plan(None, None, true).unwrap_err();
    assert_eq!(e.message(), "Bad request: channel_id or dm_id is required for mute/unmute");
}

#[test]
fn new_commands_are_checked() {
    let (n, t) = validate_new_command(&create_req("/Deploy", None)).unwrap();
    assert_eq!((n.as_str(), t.as_str()), ("deploy", "in_channel"));
    let (_, t) = validate_new_command(&create_req("x", Some("ephemeral"))).unwrap();
    assert_eq!(t, "ephemeral");
    let e = validate_new_command(&create_req("/Shrug", None)).unwrap_err();
    assert_eq!(e.message(), "Bad request: Cannot override builtin command: /shrug");
    let e = validate_new_command(&create_req("///", None)).unwrap_err();
    assert_eq!(e.message(), "Bad request: Command name must be 1-50 characters");
    let long = "a".repeat(51);
    assert!(validate_new_command(&create_req(&long, None)).is_err());
    assert!(validate_new_command(&create_req(&"a".repeat(50), None)).is_ok());
    let e = validate_new_command(&create_req("x", Some("loud"))).unwrap_err();
    assert_eq!(e.message(), "Bad request: response_type must be 'ephemeral' or 'in_channel'");
}

#[test]
fn custom_commands_are_changed_only_by_their_organization() {
    let c = custom("deploy", true, "webhook", Some("u"));
    assert!(check_command_update(&c, 1, &update_req(Some("ephemeral"))).is_ok());
    let e = check_command_update(&c, 9, &update_req(None)).unwrap_err();
    assert!(matches!(e, ApiError::Authorization(ref m) if m == "Cannot modify commands from another organization"));
    let e = check_command_update(&c, 1, &update_req(Some("bad"))).unwrap_err();
    assert_eq!(e.status_code(), 400);
    let b = custom("shrug", true, "builtin", None);
    let e = check_command_update(&b, 1, &update_req(None)).unwrap_err();
    assert_eq!(e.message(), "Bad request: Cannot modify builtin commands");
    assert!(check_command_delete(&c, 1).is_ok());
    let e = check_command_delete(&c, 2).unwrap_err();
    assert_eq!(e.message(), "Authorization error: Cannot delete commands from another organization");
    let e = check_command_delete(&b, 1).unwrap_err();
    assert_eq!(e.message(), "Bad request: Cannot delete builtin commands");
}
