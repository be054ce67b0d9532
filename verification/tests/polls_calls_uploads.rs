use openchat_core::calls::{
    check_join_huddle, created_huddle, check_call_scope, check_end_call, check_join_call, check_leave_call, check_start_call,
    ends_after_leave, get_livekit_url, require_huddle, require_livekit, ScopeCheck,
};
use openchat_core::commands::Target;
use openchat_core::polls::{check_close_poll, fresh_results, plan_poll};
use openchat_core::uploads::{
    append_chunk, attachment_disposition, attachment_url, check_attachment_owner,
    check_emoji_type, download_content_type, emoji_cache_key, emoji_exists_error,
    emoji_image_type, emoji_image_url, emoji_storage_name, file_type_refusal,
    finish_attachment_upload, finish_emoji_upload, is_allowed_emoji_type,
    parse_message_id_field, require_attachment_access, require_emoji_admin, require_file_name,
    upload_content_type, MAX_EMOJI_SIZE_BYTES, MAX_FILE_SIZE_BYTES,
};

fn opts(n: usize) -> Vec<String> {
    (0..n).map(|i| format!("option {}", i)).collect()
}

#[test]
fn polls_are_planned() {
    let p = plan_poll("Lunch?", &opts(3), None, None, Some(5), Some(6)).unwrap();
    assert_eq!(p.target, Target::Channel(5));
    assert_eq!(p.content, "\u{1F4CA} **Poll:** Lunch?");
    assert_eq!(p.poll_type, "single");
    assert!(!p.anonymous);
    assert_eq!(p.options.len(), 3);
    assert_eq!((p.options[2].index, p.options[2].text.as_str()), (2, "option 2"));
    let r = fresh_results(&p);
    assert_eq!(r.len(), 3);
    assert!(r.iter().enumerate().all(|(i, o)| o.index == i as i32 && o.votes == 0));
    let q = plan_poll("Q", &opts(10), Some("multiple"), Some(true), None, Some(6)).unwrap();
    assert_eq!((q.target, q.poll_type.as_str(), q.anonymous), (Target::Dm(6), "multiple", true));
}

#[test]
fn polls_are_refused_in_order() {
    let m = |r: Result<openchat_core::polls::PollPlan, openchat_core::errors::ApiError>| {
        r.err().unwrap().message()
    };
    assert_eq!(m(plan_poll("Q", &opts(1), None, None, Some(1), None)), "Bad request: Poll must have at least 2 options");
    assert_eq!(m(plan_poll("Q", &opts(11), None, None, Some(1), None)), "Bad request: Poll cannot have more than 10 options");
    assert_eq!(m(plan_poll("", &opts(2), None, None, Some(1), None)), "Bad request: Poll question cannot be empty");
    assert_eq!(m(plan_poll("Q", &opts(2), Some("ranked"), None, Some(1), None)), "Bad request: poll_type must be 'single' or 'multiple'");
    assert_eq!(m(plan_poll("Q", &opts(2), None, None, None, None)), "Bad request: channel_id or dm_id is required");
    assert!(check_close_poll(1, 1, false).is_ok());
    assert_eq!(check_close_poll(1, 2, false).unwrap_err().message(), "Authorization error: Only the poll creator can close it");
    assert_eq!(check_close_poll(1, 1, true).unwrap_err().message(), "Bad request: Poll is already closed");
}

#[test]
fn starting_a_call() {
    assert_eq!(check_start_call(true, None, Some(1), None).unwrap(), "audio");
    assert_eq!(check_start_call(true, Some("video"), None, Some(2)).unwrap(), "video");
    assert_eq!(check_start_call(false, Some("video"), None, Some(2)).unwrap_err().message(), "Bad request: Voice/video calling is not configured");
    assert_eq!(check_start_call(true, Some("hologram"), Some(1), None).unwrap_err().message(), "Bad request: call_type must be 'audio' or 'video'");
    assert_eq!(check_start_call(true, None, None, None).unwrap_err().message(), "Bad request: channel_id or dm_id is required");
    let ok = ScopeCheck { is_member: true, has_active_call: false };
    let busy = ScopeCheck { is_member: true, has_active_call: true };
    let outsider = ScopeCheck { is_member: false, has_active_call: false };
    assert!(check_call_scope(Some(ok), Some(ok)).is_ok());
    assert_eq!(check_call_scope(Some(outsider), None).unwrap_err().message(), "Authorization error: Not a channel member");
    assert_eq!(check_call_scope(Some(busy), None).unwrap_err().message(), "Bad request: An active call already exists in this channel");
    assert_eq!(check_call_scope(None, Some(outsider)).unwrap_err().message(), "Authorization error: Not a DM participant");
    assert_eq!(check_call_scope(Some(ok), Some(busy)).unwrap_err().message(), "Bad request: An active call already exists in this DM");
    assert!(require_livekit(true).is_ok());
    assert!(require_livekit(false).is_err());
    assert_eq!(get_livekit_url(Some("wss://lk")), "wss://lk");
    assert_eq!(get_livekit_url(None), "");
}

#[test]
fn call_lifecycle() {
    // a ringing call becomes active when someone else joins
    assert_eq!(check_join_call("ringing", 1, 2, Some(true), None).unwrap(), true);
    assert_eq!(check_join_call("ringing", 1, 1, Some(true), None).unwrap(), false);
    assert_eq!(check_join_call("active", 1, 2, None, Some(true)).unwrap(), false);
    assert_eq!(check_join_call("active", 1, 2, Some(false), None).unwrap_err().message(), "Authorization error: Not a channel member");
    assert_eq!(check_join_call("active", 1, 2, None, Some(false)).unwrap_err().message(), "Authorization error: Not a DM participant");
    assert!(check_leave_call("active").is_ok());
    assert!(ends_after_leave(0));
    assert!(!ends_after_leave(2));
    assert!(check_end_call("active", 1, 1).is_ok());
    assert_eq!(check_end_call("active", 1, 2).unwrap_err().message(), "Authorization error: Only the call starter can end the call");
    assert_eq!(require_huddle(Some(4)).unwrap(), 4);
    assert_eq!(require_huddle(None).unwrap_err().message(), "Not found: No active huddle in this channel");
}

#[test]
fn an_ended_call_refuses_everything() {
    assert_eq!(check_join_call("ended", 1, 1, Some(true), Some(true)).unwrap_err().message(), "Bad request: Call has ended");
    assert_eq!(check_leave_call("ended").unwrap_err().message(), "Bad request: Call has already ended");
    assert_eq!(check_end_call("ended", 1, 1).unwrap_err().message(), "Bad request: Call has already ended");
    assert_eq!(check_end_call("ended", 1, 2).unwrap_err().message(), "Bad request: Call has already ended");
}

#[test]
fn upload_content_types() {
    assert_eq!(upload_content_type(Some("image/png"), "x.jpg"), "image/png");
    assert_eq!(upload_content_type(None, "photo.jpg"), "image/jpeg");
    assert_eq!(upload_content_type(None, "notes.txt"), "text/plain");
    assert_eq!(upload_content_type(None, "blob.zzzunknown"), "application/octet-stream");
    assert_eq!(upload_content_type(None, "noextension"), "application/octet-stream");
    assert_eq!(emoji_image_type("emoji/party.gif"), "image/gif");
    assert_eq!(emoji_image_type("emoji/party"), "image/png");
    assert_eq!(download_content_type(Some("application/pdf".into())), "application/pdf");
    assert_eq!(download_content_type(None), "application/octet-stream");
    assert_eq!(attachment_disposition("a.pdf"), "attachment; filename=\"a.pdf\"");
    assert_eq!(require_file_name(Some("a.pdf")).unwrap(), "a.pdf");
    assert_eq!(require_file_name(None).unwrap_err().message(), "Bad request: Missing filename");
}

#[test]
fn emoji_types() {
    for t in ["image/jpeg", "image/png", "image/gif", "image/webp"] {
        assert!(is_allowed_emoji_type(t));
        assert!(check_emoji_type(t).is_ok());
    }
    assert!(!is_allowed_emoji_type("image/svg+xml"));
    assert_eq!(
        check_emoji_type("text/plain").unwrap_err().message(),
        "Bad request: File type not allowed for emoji: text/plain. Allowed types: JPEG, PNG, GIF, WebP"
    );
    assert_eq!(file_type_refusal("application/x-exe").message(), "Bad request: File type not allowed: application/x-exe");
}

#[test]
fn uploads_stop_at_their_size_limit() {
    assert_eq!(MAX_EMOJI_SIZE_BYTES, 512 * 1024);
    assert_eq!(MAX_FILE_SIZE_BYTES, 25 * 1024 * 1024);
    let mut data = vec![1u8; MAX_EMOJI_SIZE_BYTES - 2];
    assert!(append_chunk(&mut data, &[2, 3], true).is_ok());
    assert_eq!(data.len(), MAX_EMOJI_SIZE_BYTES);
    assert_eq!(&data[data.len() - 2..], &[2, 3]);
    let e = append_chunk(&mut data, &[4], true).unwrap_err();
    assert_eq!(e.message(), "Bad request: Emoji file size exceeds maximum allowed size (512KB)");
    assert_eq!(data.len(), MAX_EMOJI_SIZE_BYTES);
    // the same bytes are well within an attachment's limit
    assert!(append_chunk(&mut data, &[4], false).is_ok());
    let mut big = vec![0u8; MAX_FILE_SIZE_BYTES];
    let e = append_chunk(&mut big, &[1], false).unwrap_err();
    assert_eq!(e.message(), "Bad request: File size exceeds maximum allowed size");
}

#[test]
fn message_id_fields() {
    let id = parse_message_id_field(b"00000000-0000-0000-0000-00000000002a".to_vec()).unwrap();
    assert_eq!(id, 42);
    let e = parse_message_id_field(vec![0xff, 0xfe]).unwrap_err();
    assert!(e.message().starts_with("Bad request: Invalid message_id: "));
    let e = parse_message_id_field(b"not-a-uuid".to_vec()).unwrap_err();
    assert!(e.message().starts_with("Bad request: Invalid message_id UUID: "));
}

#[test]
fn finished_uploads() {
    assert_eq!(finish_attachment_upload(Some(3), vec!["f"]).unwrap(), (3, vec!["f"]));
    assert_eq!(finish_attachment_upload::<&str>(None, vec!["f"]).unwrap_err().message(), "Bad request: Missing message_id");
    assert_eq!(finish_attachment_upload::<&str>(Some(3), vec![]).unwrap_err().message(), "Bad request: No files uploaded");
    let (n, f) = finish_emoji_upload(Some("party".to_string()), Some(7)).unwrap();
    assert_eq!((n.as_str(), f), ("party", 7));
    assert_eq!(finish_emoji_upload::<i32>(None, Some(7)).unwrap_err().message(), "Bad request: Missing emoji name");
    assert_eq!(finish_emoji_upload::<i32>(Some("p".into()), None).unwrap_err().message(), "Bad request: No file uploaded");
}

#[test]
fn emoji_and_attachment_names() {
    assert_eq!(emoji_exists_error("party").message(), "Bad request: Emoji with name 'party' already exists");
    assert_eq!(emoji_storage_name("party", "p.png"), "emoji_party_p.png");
    assert_eq!(emoji_image_url(1), "/api/emojis/00000000-0000-0000-0000-000000000001/image");
    assert_eq!(attachment_url(2), "/api/attachments/00000000-0000-0000-0000-000000000002/download");
    assert_eq!(emoji_cache_key(3), "emojis:org:00000000-0000-0000-0000-000000000003");
    assert!(require_emoji_admin(true, false).is_ok());
    assert_eq!(require_emoji_admin(false, false).unwrap_err().message(), "Authorization error: Only admins can upload custom emojis");
    assert_eq!(require_emoji_admin(false, true).unwrap_err().message(), "Authorization error: Only admins can delete custom emojis");
    assert!(require_attachment_access(true, true).is_ok());
    assert_eq!(require_attachment_access(false, true).unwrap_err().message(), "Authorization error: You don't have access to this attachment");
    assert_eq!(require_attachment_access(false, false).unwrap_err().message(), "Authorization error: You don't have access to this message");
    assert!(check_attachment_owner(1, 1).is_ok());
    assert_eq!(check_attachment_owner(1, 2).unwrap_err().message(), "Authorization error: You can only delete your own attachments");
}

#[test]
fn huddles() {
    assert!(check_join_huddle(true, true).is_ok());
    assert_eq!(check_join_huddle(false, false).unwrap_err().message(), "Bad request: Voice/video calling is not configured");
    assert_eq!(check_join_huddle(true, false).unwrap_err().message(), "Authorization error: Not a channel member");
    assert_eq!(created_huddle(Some(5)).unwrap(), 5);
    assert_eq!(created_huddle::<u8>(None).unwrap_err().message(), "Internal server error: Failed to fetch created huddle");
}

#[test]
fn a_file_is_accepted_exactly_when_it_fits() {
    let read = |chunks: &[usize]| {
        let mut data = Vec::new();
        for (i, n) in chunks.iter().enumerate() {
            let chunk = vec![i as u8; *n];
            if append_chunk(&mut data, &chunk, true).is_err() {
                return None;
            }
        }
        Some(data)
    };
    let d = read(&[300 * 1024, 212 * 1024]).unwrap();
    assert_eq!(d.len(), 512 * 1024);
    assert_eq!(d[0], 0);
    assert_eq!(d[d.len() - 1], 1);
    assert!(read(&[300 * 1024, 212 * 1024, 1]).is_none());
    assert_eq!(read(&[]).unwrap(), Vec::<u8>::new());
}
