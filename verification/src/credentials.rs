//! Storage settings: which storage backends may be configured, and how their
//! credentials are encoded for storage (base64 of the UTF-8 text).
use vstd::prelude::*;
use vstd::utf8::{decode_utf8, encode_utf8, valid_utf8, encode_utf8_decode_utf8, encode_utf8_valid_utf8};
use crate::errors::{ApiError, ApiErrorView, bad_request, concat2};
use crate::patterns::opt_view;
use crate::text::str_eq;

verus! {

/// A successful decoding of `bytes`.
pub open spec fn decoded_ok(bytes: Seq<u8>) -> Result<Seq<u8>, Seq<char>> {
    Ok(bytes)
}

/// The character of the standard base64 alphabet for a 6-bit value:
/// `A`-`Z`, `a`-`z`, `0`-`9`, `+`, `/`.
pub open spec fn base64_symbol(n: int) -> char {
    if n < 26 {
        (65 + n) as char
    } else if n < 52 {
        (97 + n - 26) as char
    } else if n < 62 {
        (48 + n - 52) as char
    } else if n == 62 {
        '+'
    } else {
        '/'
    }
}

/// The base64 text (standard alphabet, padded with `=`) of a byte sequence:
/// each group of three bytes gives four characters, a last group of one or
/// two bytes gives two or three characters and the padding.
pub open spec fn base64_encoding(bytes: Seq<u8>) -> Seq<char>
    decreases bytes.len(),
{
    if bytes.len() == 0 {
        seq![]
    } else if bytes.len() == 1 {
        let a = bytes[0] as int;
        seq![base64_symbol(a / 4), base64_symbol((a % 4) * 16), '=', '=']
    } else if bytes.len() == 2 {
        let a = bytes[0] as int;
        let b = bytes[1] as int;
        seq![
            base64_symbol(a / 4),
            base64_symbol((a % 4) * 16 + b / 16),
            base64_symbol((b % 16) * 4),
            '=',
        ]
    } else {
        let a = bytes[0] as int;
        let b = bytes[1] as int;
        let c = bytes[2] as int;
        seq![
            base64_symbol(a / 4),
            base64_symbol((a % 4) * 16 + b / 16),
            base64_symbol((b % 16) * 4 + c / 64),
            base64_symbol(c % 64),
        ] + base64_encoding(bytes.subrange(3, bytes.len() as int))
    }
}

/// What decoding a base64 text gives: its bytes, or the text of the decoding error.
pub uninterp spec fn base64_decoding(text: Seq<char>) -> Result<Seq<u8>, Seq<char>>;

/// The message of the error that `String::from_utf8` reports for bytes that are not UTF-8.
pub uninterp spec fn utf8_error_text(bytes: Seq<u8>) -> Seq<char>;

/// `base64::encode` (base64 0.21, the padded standard engine). The claim is
/// that the text is the standard padded base64 of the bytes, as
/// `base64_encoding` spells it out, and that `base64::decode` of that text
/// gives the bytes back.
#[verifier::external_body]
fn base64_encode(bytes: &[u8]) -> (s: String)
    ensures
        s@ == base64_encoding(bytes@),
        base64_decoding(s@) == decoded_ok(bytes@),
{
    #[allow(deprecated)]
    base64::encode(bytes)
}

/// The mathematical model of a decoding result.
pub open spec fn decoded_view(r: Result<Vec<u8>, String>) -> Result<Seq<u8>, Seq<char>> {
    match r {
        Ok(v) => Ok(v@),
        Err(e) => Err(e@),
    }
}

/// `base64::decode` (base64 0.21), its error written with `to_string`. The
/// claim is that the result is `base64_decoding(text)`.
#[verifier::external_body]
fn base64_decode(text: &str) -> (r: Result<Vec<u8>, String>)
    ensures
        decoded_view(r) == base64_decoding(text@),
{
    #[allow(deprecated)]
    base64::decode(text).map_err(|e| e.to_string())
}

/// `String::from_utf8` of std, its error written with `to_string`: the text
/// of the bytes when they are valid UTF-8, otherwise the error's message.
#[verifier::external_body]
pub(crate) fn string_from_utf8(bytes: Vec<u8>) -> (r: Result<String, String>)
    ensures
        r is Ok <==> valid_utf8(bytes@),
        r matches Ok(s) ==> s@ == decode_utf8(bytes@),
        r matches Err(e) ==> e@ == utf8_error_text(bytes@),
{
    String::from_utf8(bytes).map_err(|e| e.to_string())
}

/// The stored form of a credential: the base64 of its UTF-8 bytes.
pub open spec fn encrypt_spec(credential: Seq<char>) -> Seq<char> {
    base64_encoding(encode_utf8(credential))
}

/// Encodes a credential for storage. Reading back the stored form gives the credential.
pub fn encrypt_credential(credential: &str) -> (s: String)
    ensures
        s@ == encrypt_spec(credential@),
        decrypt_spec(s@) == Ok::<Seq<char>, ApiErrorView>(credential@),
{
    let s = base64_encode(credential.as_bytes());
    proof {
        encode_utf8_valid_utf8(credential@);
        encode_utf8_decode_utf8(credential@);
    }
    s
}

/// What reading back a stored credential gives: its text, or why it cannot be read.
pub open spec fn decrypt_spec(encrypted: Seq<char>) -> Result<Seq<char>, ApiErrorView> {
    match base64_decoding(encrypted) {
        Err(e) => Err(ApiErrorView::Internal("Failed to decrypt credential: "@ + e)),
        Ok(bytes) => if valid_utf8(bytes) {
            Ok(decode_utf8(bytes))
        } else {
            Err(ApiErrorView::Internal("Invalid credential format: "@ + utf8_error_text(bytes)))
        },
    }
}

/// Reads back a stored credential.
pub fn decrypt_credential(encrypted: &str) -> (r: Result<String, ApiError>)
    ensures
        match (r, decrypt_spec(encrypted@)) {
            (Ok(s), Ok(t)) => s@ == t,
            (Err(e), Err(v)) => e@ == v,
            _ => false,
        },
{
    let decoded = base64_decode(encrypted);
    match decoded {
        Err(e) => Err(ApiError::Internal(concat2("Failed to decrypt credential: ", e.as_str()))),
        Ok(bytes) => match string_from_utf8(bytes) {
            Ok(s) => Ok(s),
            Err(e) => Err(ApiError::Internal(concat2("Invalid credential format: ", e.as_str()))),
        },
    }
}

/// Storage settings as a request gives them.
#[derive(Debug)]
pub struct StorageSettingsRequest {
    pub storage_type: String,
    pub s3_bucket: Option<String>,
    pub s3_region: Option<String>,
    pub s3_access_key_id: Option<String>,
    pub s3_secret_key: Option<String>,
    pub s3_endpoint: Option<String>,
}

/// Why storage settings are refused, if they are: the type must be `local` or
/// `s3`, and `s3` needs a bucket, a region and both keys.
pub open spec fn storage_check_spec(req: StorageSettingsRequest) -> Option<Seq<char>> {
    if req.storage_type@ != "local"@ && req.storage_type@ != "s3"@ {
        Some("storage_type must be 'local' or 's3'"@)
    } else if req.storage_type@ == "s3"@ && (req.s3_bucket is None || req.s3_region is None) {
        Some("s3_bucket and s3_region are required for S3 storage"@)
    } else if req.storage_type@ == "s3"@ && (req.s3_access_key_id is None || req.s3_secret_key
        is None) {
        Some("s3_access_key_id and s3_secret_key are required for S3 storage"@)
    } else {
        None
    }
}

/// Checks storage settings before they are stored.
pub fn validate_storage_settings(req: &StorageSettingsRequest) -> (r: Result<(), ApiError>)
    ensures
        match storage_check_spec(*req) {
            None => r is Ok,
            Some(m) => r matches Err(e) && e@ == ApiErrorView::BadRequest(m),
        },
{
    let t = req.storage_type.as_str();
    if !str_eq(t, "local") && !str_eq(t, "s3") {
        return Err(bad_request("storage_type must be 'local' or 's3'"));
    }
    if str_eq(t, "s3") {
        if req.s3_bucket.is_none() || req.s3_region.is_none() {
            return Err(bad_request("s3_bucket and s3_region are required for S3 storage"));
        }
        if req.s3_access_key_id.is_none() || req.s3_secret_key.is_none() {
            return Err(
                bad_request("s3_access_key_id and s3_secret_key are required for S3 storage"),
            );
        }
    }
    Ok(())
}

/// The stored forms of the access key and the secret key, for those that are given.
pub fn encrypt_s3_keys(req: &StorageSettingsRequest) -> (r: (Option<String>, Option<String>))
    ensures
        opt_view(r.0) == (match req.s3_access_key_id {
            Some(k) => Some(encrypt_spec(k@)),
            None => None,
        }),
        opt_view(r.1) == (match req.s3_secret_key {
            Some(k) => Some(encrypt_spec(k@)),
            None => None,
        }),
{
    let a = match &req.s3_access_key_id {
        Some(k) => Some(encrypt_credential(k.as_str())),
        None => None,
    };
    let b = match &req.s3_secret_key {
        Some(k) => Some(encrypt_credential(k.as_str())),
        None => None,
    };
    (a, b)
}

} // verus!
