//! File uploads (message attachments and custom emoji): content types, size
//! limits while reading, what an upload must hold, and the names and URLs given
//! to what is stored.
use vstd::prelude::*;
use crate::credentials::string_from_utf8;
use crate::errors::{bad_request, concat2, concat3, forbidden, ApiError, ApiErrorView};
use crate::ids::{parse_uuid, uuid_parse, uuid_string, uuid_text};
use crate::patterns::opt_view;
use crate::text::str_eq;
use vstd::utf8::{decode_utf8, valid_utf8};
use crate::credentials::utf8_error_text;

verus! {

/// The largest attachment accepted, in bytes (25 MB).
pub const MAX_FILE_SIZE_BYTES: usize = 26214400;

/// The largest custom emoji image accepted, in bytes (512 KB).
pub const MAX_EMOJI_SIZE_BYTES: usize = 524288;

/// The MIME type that the mime_guess crate finds for a file name from its
/// extension, if it knows one.
pub uninterp spec fn guessed_mime(file_name: Seq<char>) -> Option<Seq<char>>;

/// `mime_guess::from_path(file_name).first_raw()`: the first MIME type that
/// mime_guess 2 lists for the extension of the name, if any. The claim is that
/// the result is `guessed_mime(file_name)`.
#[verifier::external_body]
fn guess_mime(file_name: &str) -> (r: Option<String>)
    ensures
        opt_view(r) == guessed_mime(file_name@),
{
    match mime_guess::from_path(file_name).first_raw() {
        Some(m) => Some(m.to_string()),
        None => None,
    }
}

/// The content type of an uploaded file: the declared one, else the one guessed
/// from its name, else `application/octet-stream`.
pub open spec fn upload_type_spec(declared: Option<Seq<char>>, file_name: Seq<char>) -> Seq<char> {
    match declared {
        Some(t) => t,
        None => match guessed_mime(file_name) {
            Some(m) => m,
            None => "application/octet-stream"@,
        },
    }
}

/// The content type of an uploaded file.
pub fn upload_content_type(declared: Option<&str>, file_name: &str) -> (t: String)
    ensures
        t@ == upload_type_spec(
            match declared {
                Some(d) => Some(d@),
                None => None::<Seq<char>>,
            },
            file_name@,
        ),
{
    match declared {
        Some(d) => String::from_str(d),
        None => match guess_mime(file_name) {
            Some(m) => m,
            None => String::from_str("application/octet-stream"),
        },
    }
}

/// The content type an emoji image is served with: guessed from where it is
/// stored, `image/png` when nothing is guessed.
pub fn emoji_image_type(storage_path: &str) -> (t: String)
    ensures
        t@ == match guessed_mime(storage_path@) {
            Some(m) => m,
            None => "image/png"@,
        },
{
    match guess_mime(storage_path) {
        Some(m) => m,
        None => String::from_str("image/png"),
    }
}

/// The content type an attachment is downloaded with: the one stored, else
/// `application/octet-stream`.
pub fn download_content_type(stored: Option<String>) -> (t: String)
    ensures
        t@ == match opt_view(stored) {
            Some(s) => s,
            None => "application/octet-stream"@,
        },
{
    match stored {
        Some(s) => s,
        None => String::from_str("application/octet-stream"),
    }
}

/// The `Content-Disposition` of a downloaded attachment.
pub fn attachment_disposition(file_name: &str) -> (h: String)
    ensures
        h@ == "attachment; filename=\""@ + file_name@ + "\""@,
{
    concat3("attachment; filename=\"", file_name, "\"")
}

/// The name of an uploaded file part, which is required.
pub fn require_file_name(file_name: Option<&str>) -> (r: Result<String, ApiError>)
    ensures
        match file_name {
            Some(n) => r matches Ok(s) && s@ == n@,
            None => r matches Err(e) && e@ == ApiErrorView::BadRequest("Missing filename"@),
        },
{
    match file_name {
        Some(n) => Ok(String::from_str(n)),
        None => Err(bad_request("Missing filename")),
    }
}

/// The image types a custom emoji may have: JPEG, PNG, GIF and WebP.
pub open spec fn emoji_type_allowed(content_type: Seq<char>) -> bool {
    ||| content_type == "image/jpeg"@
    ||| content_type == "image/png"@
    ||| content_type == "image/gif"@
    ||| content_type == "image/webp"@
}

/// Whether a content type is one a custom emoji may have.
pub fn is_allowed_emoji_type(content_type: &str) -> (b: bool)
    ensures
        b == emoji_type_allowed(content_type@),
{
    str_eq(content_type, "image/jpeg") || str_eq(content_type, "image/png") || str_eq(
        content_type,
        "image/gif",
    ) || str_eq(content_type, "image/webp")
}

/// Checks the content type of an emoji image.
pub fn check_emoji_type(content_type: &str) -> (r: Result<(), ApiError>)
    ensures
        emoji_type_allowed(content_type@) ==> r is Ok,
        !emoji_type_allowed(content_type@) ==> (r matches Err(e) && e@ == ApiErrorView::BadRequest(
            "File type not allowed for emoji: "@ + content_type@
                + ". Allowed types: JPEG, PNG, GIF, WebP"@,
        )),
{
    if is_allowed_emoji_type(content_type) {
        Ok(())
    } else {
        Err(
            ApiError::BadRequest(
                concat3(
                    "File type not allowed for emoji: ",
                    content_type,
                    ". Allowed types: JPEG, PNG, GIF, WebP",
                ),
            ),
        )
    }
}

/// The refusal of an attachment whose type is not allowed.
pub fn file_type_refusal(content_type: &str) -> (e: ApiError)
    ensures
        e@ == ApiErrorView::BadRequest("File type not allowed: "@ + content_type@),
{
    ApiError::BadRequest(concat2("File type not allowed: ", content_type))
}

/// What an upload refused for its size is answered.
pub open spec fn too_large_error(emoji: bool) -> ApiErrorView {
    ApiErrorView::BadRequest(
        if emoji {
            "Emoji file size exceeds maximum allowed size (512KB)"@
        } else {
            "File size exceeds maximum allowed size"@
        },
    )
}

/// Appends a received chunk to the bytes of a file being uploaded, unless the
/// file would then be larger than its limit (512 KB for an emoji, 25 MB for an
/// attachment); then the upload is refused and the bytes are left as they were.
pub fn append_chunk(data: &mut Vec<u8>, chunk: &[u8], emoji: bool) -> (r: Result<(), ApiError>)
    ensures
        old(data)@.len() + chunk@.len() <= (if emoji {
            MAX_EMOJI_SIZE_BYTES
        } else {
            MAX_FILE_SIZE_BYTES
        }) ==> r is Ok && final(data)@ == old(data)@ + chunk@,
        old(data)@.len() + chunk@.len() > (if emoji {
            MAX_EMOJI_SIZE_BYTES
        } else {
            MAX_FILE_SIZE_BYTES
        }) ==> (r matches Err(e) && e@ == too_large_error(emoji)) && final(data)@ == old(data)@,
{
    let limit = if emoji {
        MAX_EMOJI_SIZE_BYTES
    } else {
        MAX_FILE_SIZE_BYTES
    };
    if data.len() > limit || chunk.len() > limit - data.len() {
        if emoji {
            return Err(bad_request("Emoji file size exceeds maximum allowed size (512KB)"));
        }
        return Err(bad_request("File size exceeds maximum allowed size"));
    }
    data.extend_from_slice(chunk);
    Ok(())
}

/// A file read chunk by chunk with [`append_chunk`] from nothing, under the
/// size limit `limit`: the bytes kept, or `None` once a chunk was refused.
pub open spec fn upload_run(chunks: Seq<Seq<u8>>, limit: nat) -> Option<Seq<u8>>
    decreases chunks.len(),
{
    if chunks.len() == 0 {
        Some(seq![])
    } else {
        match upload_run(chunks.drop_last(), limit) {
            None => None,
            Some(d) => if d.len() + chunks.last().len() <= limit {
                Some(d + chunks.last())
            } else {
                None
            },
        }
    }
}

/// An upload is accepted exactly when its whole size is within the limit, and
/// then the file holds the chunks in the order they came; a file being read
/// never holds more than the limit.
pub proof fn law_upload_within_limit(chunks: Seq<Seq<u8>>, limit: nat)
    ensures
        upload_run(chunks, limit) is Some <==> chunks.flatten().len() <= limit,
        upload_run(chunks, limit) matches Some(d) ==> d == chunks.flatten() && d.len() <= limit,
    decreases chunks.len(),
{
    if chunks.len() > 0 {
        let init = chunks.drop_last();
        law_upload_within_limit(init, limit);
        init.lemma_flatten_push(chunks.last());
        assert(init.push(chunks.last()) =~= chunks);
    }
}

/// The message identifier sent as a form field of an attachment upload: its
/// bytes must be UTF-8 and the text a UUID.
pub open spec fn message_id_field_spec(bytes: Seq<u8>) -> Result<u128, ApiErrorView> {
    if !valid_utf8(bytes) {
        Err(ApiErrorView::BadRequest("Invalid message_id: "@ + utf8_error_text(bytes)))
    } else {
        match uuid_parse(decode_utf8(bytes)) {
            Ok(id) => Ok(id),
            Err(e) => Err(ApiErrorView::BadRequest("Invalid message_id UUID: "@ + e)),
        }
    }
}

/// Reads the message identifier of an attachment upload from its form field.
pub fn parse_message_id_field(bytes: Vec<u8>) -> (r: Result<u128, ApiError>)
    ensures
        match (r, message_id_field_spec(bytes@)) {
            (Ok(a), Ok(b)) => a == b,
            (Err(e), Err(v)) => e@ == v,
            _ => false,
        },
{
    let text = match string_from_utf8(bytes) {
        Ok(t) => t,
        Err(e) => {
            return Err(ApiError::BadRequest(concat2("Invalid message_id: ", e.as_str())));
        },
    };
    match parse_uuid(text.as_str()) {
        Ok(id) => Ok(id),
        Err(e) => Err(ApiError::BadRequest(concat2("Invalid message_id UUID: ", e.as_str()))),
    }
}

/// What an attachment upload must hold once read: the message it belongs to,
/// and at least one file.
pub fn finish_attachment_upload<F>(message_id: Option<u128>, files: Vec<F>) -> (r: Result<
    (u128, Vec<F>),
    ApiError,
>)
    ensures
        message_id is None ==> (r matches Err(e) && e@ == ApiErrorView::BadRequest(
            "Missing message_id"@,
        )),
        message_id is Some && files@.len() == 0 ==> (r matches Err(e) && e@
            == ApiErrorView::BadRequest("No files uploaded"@)),
        message_id is Some && files@.len() > 0 ==> (r matches Ok((id, fs)) && id
            == message_id.unwrap() && fs@ == files@),
{
    let id = match message_id {
        Some(id) => id,
        None => {
            return Err(bad_request("Missing message_id"));
        },
    };
    if files.len() == 0 {
        return Err(bad_request("No files uploaded"));
    }
    Ok((id, files))
}

/// What an emoji upload must hold once read: a name, and a file.
pub fn finish_emoji_upload<F>(name: Option<String>, file: Option<F>) -> (r: Result<
    (String, F),
    ApiError,
>)
    ensures
        name is None ==> (r matches Err(e) && e@ == ApiErrorView::BadRequest(
            "Missing emoji name"@,
        )),
        name is Some && file is None ==> (r matches Err(e) && e@ == ApiErrorView::BadRequest(
            "No file uploaded"@,
        )),
        name is Some && file is Some ==> (r matches Ok((n, f)) && n@ == name.unwrap()@ && f
            == file.unwrap()),
{
    let n = match name {
        Some(n) => n,
        None => {
            return Err(bad_request("Missing emoji name"));
        },
    };
    match file {
        Some(f) => Ok((n, f)),
        None => Err(bad_request("No file uploaded")),
    }
}

/// The refusal of an emoji whose name the organization already uses.
pub fn emoji_exists_error(name: &str) -> (e: ApiError)
    ensures
        e@ == ApiErrorView::BadRequest("Emoji with name '"@ + name@ + "' already exists"@),
{
    ApiError::BadRequest(concat3("Emoji with name '", name, "' already exists"))
}

/// Refuses to upload (or delete) a custom emoji for a user without the
/// organization-settings permission.
pub fn require_emoji_admin(has_permission: bool, deleting: bool) -> (r: Result<(), ApiError>)
    ensures
        has_permission ==> r is Ok,
        !has_permission ==> (r matches Err(e) && e@ == ApiErrorView::Authorization(
            if deleting {
                "Only admins can delete custom emojis"@
            } else {
                "Only admins can upload custom emojis"@
            },
        )),
{
    if has_permission {
        Ok(())
    } else if deleting {
        Err(forbidden("Only admins can delete custom emojis"))
    } else {
        Err(forbidden("Only admins can upload custom emojis"))
    }
}

/// The name under which an emoji image is stored: `emoji_{name}_{file_name}`.
pub fn emoji_storage_name(name: &str, file_name: &str) -> (s: String)
    ensures
        s@ == "emoji_"@ + name@ + "_"@ + file_name@,
{
    let mut s = concat3("emoji_", name, "_");
    s.append(file_name);
    s
}

/// Where an emoji's image is served: `/api/emojis/{id}/image`.
pub fn emoji_image_url(emoji_id: u128) -> (s: String)
    ensures
        s@ == "/api/emojis/"@ + uuid_text(emoji_id) + "/image"@,
{
    let u = uuid_string(emoji_id);
    concat3("/api/emojis/", u.as_str(), "/image")
}

/// Where an attachment is downloaded: `/api/attachments/{id}/download`.
pub fn attachment_url(attachment_id: u128) -> (s: String)
    ensures
        s@ == "/api/attachments/"@ + uuid_text(attachment_id) + "/download"@,
{
    let u = uuid_string(attachment_id);
    concat3("/api/attachments/", u.as_str(), "/download")
}

/// The cache key of an organization's custom emoji: `emojis:org:{org_id}`.
pub fn emoji_cache_key(org_id: u128) -> (s: String)
    ensures
        s@ == "emojis:org:"@ + uuid_text(org_id),
{
    let u = uuid_string(org_id);
    concat2("emojis:org:", u.as_str())
}

/// Refuses an attachment (`for_attachment`) or a message's attachments to a
/// user who cannot see the message.
pub fn require_attachment_access(has_access: bool, for_attachment: bool) -> (r: Result<
    (),
    ApiError,
>)
    ensures
        has_access ==> r is Ok,
        !has_access ==> (r matches Err(e) && e@ == ApiErrorView::Authorization(
            if for_attachment {
                "You don't have access to this attachment"@
            } else {
                "You don't have access to this message"@
            },
        )),
{
    if has_access {
        Ok(())
    } else if for_attachment {
        Err(forbidden("You don't have access to this attachment"))
    } else {
        Err(forbidden("You don't have access to this message"))
    }
}

/// Only the author of a message may delete its attachments.
pub fn check_attachment_owner(message_author: u128, user_id: u128) -> (r: Result<(), ApiError>)
    ensures
        message_author == user_id ==> r is Ok,
        message_author != user_id ==> (r matches Err(e) && e@ == ApiErrorView::Authorization(
            "You can only delete your own attachments"@,
        )),
{
    if message_author == user_id {
        Ok(())
    } else {
        Err(forbidden("You can only delete your own attachments"))
    }
}

} // verus!
