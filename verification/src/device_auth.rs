//! Pairing devices with an account: the client address that rate limits go by,
//! what a refused attempt is told, bearer tokens, and login deep links.
use vstd::prelude::*;
use crate::errors::{concat2, not_found, ApiError, ApiErrorView};
use crate::rate_limit::{config_of, RateLimitType};
use crate::text::{before_char, decimal, decimal_string, first_piece, is_prefix, strip_prefix, trim, trim_spec};

verus! {

/// The address of a client: the first address listed in `X-Forwarded-For`
/// (trimmed) when that header is there and readable, else the peer's address,
/// else `unknown`.
pub open spec fn client_ip_spec(forwarded_for: Option<Seq<char>>, peer: Option<Seq<char>>) -> Seq<
    char,
> {
    match forwarded_for {
        Some(f) => trim_spec(before_char(f, ',')),
        None => match peer {
            Some(p) => p,
            None => "unknown"@,
        },
    }
}

/// The address of a client, from its `X-Forwarded-For` header (when readable
/// as text) and its peer address.
pub fn get_client_ip(forwarded_for: Option<&str>, peer: Option<&str>) -> (ip: String)
    ensures
        ip@ == client_ip_spec(
            match forwarded_for {
                Some(f) => Some(f@),
                None => None::<Seq<char>>,
            },
            match peer {
                Some(p) => Some(p@),
                None => None::<Seq<char>>,
            },
        ),
{
    match forwarded_for {
        Some(f) => {
            let first = first_piece(f, ',');
            trim(first.as_str())
        },
        None => match peer {
            Some(p) => String::from_str(p),
            None => String::from_str("unknown"),
        },
    }
}

/// What a refused pairing attempt is told: for a code request, or for a code
/// check (`verifying`), with the seconds until the limit resets.
pub open spec fn rate_limited_message(verifying: bool, reset_seconds: u64) -> Seq<char> {
    if verifying {
        "Too many verification attempts. Please try again in "@ + decimal(reset_seconds as nat)
            + " seconds."@
    } else {
        "Rate limit exceeded. Please try again in "@ + decimal(reset_seconds as nat) + " seconds."@
    }
}

/// The text answered to a pairing attempt refused by its rate limit.
pub fn rate_limited_text(verifying: bool, reset_seconds: u64) -> (m: String)
    ensures
        m@ == rate_limited_message(verifying, reset_seconds),
{
    let n = decimal_string(reset_seconds);
    let mut m = if verifying {
        concat2("Too many verification attempts. Please try again in ", n.as_str())
    } else {
        concat2("Rate limit exceeded. Please try again in ", n.as_str())
    };
    m.append(" seconds.");
    m
}

/// The kind of rate limit that a pairing step goes by: code checks are limited
/// per client address, code requests per user.
pub open spec fn pairing_limit_kind(verifying: bool) -> RateLimitType {
    if verifying {
        RateLimitType::DevicePairingVerify
    } else {
        RateLimitType::DevicePairingGenerate
    }
}

/// The `X-RateLimit-Limit` reported on a pairing step: the configured limit of
/// its kind, in decimal (10 per minute for code checks, 5 per minute for code
/// requests).
pub fn pairing_rate_limit_header(verifying: bool) -> (h: String)
    ensures
        h@ == decimal(config_of(pairing_limit_kind(verifying)).0 as nat),
{
    let kind = if verifying {
        RateLimitType::DevicePairingVerify
    } else {
        RateLimitType::DevicePairingGenerate
    };
    let limit = kind.config().max_requests;
    decimal_string(limit as u64)
}

/// The token of an `Authorization` header of the form `Bearer {token}`.
pub fn bearer_token(header: Option<&str>) -> (r: Result<String, ApiError>)
    ensures
        match header {
            None => r matches Err(e) && e@ == ApiErrorView::Authentication(
                "Missing authorization header"@,
            ),
            Some(h) => if is_prefix("Bearer "@, h@) {
                r matches Ok(t) && t@ == h@.skip(7)
            } else {
                r matches Err(e) && e@ == ApiErrorView::Authentication(
                    "Invalid authorization format"@,
                )
            },
        },
{
    let h = match header {
        Some(h) => h,
        None => {
            return Err(ApiError::Authentication(String::from_str("Missing authorization header")));
        },
    };
    proof {
        reveal_strlit("Bearer ");
    }
    match strip_prefix(h, "Bearer ") {
        Some(t) => Ok(t),
        None => Err(ApiError::Authentication(String::from_str("Invalid authorization format"))),
    }
}

/// A pairing code handed out, with the seconds it stays valid.
pub struct GenerateCodeResponse {
    pub code: String,
    pub expires_in: i64,
}

/// The answer to a pairing-code request: the code, and the whole seconds from
/// `now` until it expires (both times in seconds).
pub fn code_response(code: String, expires_at: i64, now: i64) -> (r: GenerateCodeResponse)
    requires
        i64::MIN <= expires_at - now <= i64::MAX,
    ensures
        r.code@ == code@,
        r.expires_in == expires_at - now,
{
    GenerateCodeResponse { code, expires_in: expires_at - now }
}

/// A login deep link: the encrypted payload, and the link that carries it.
pub struct GenerateDeepLinkResponse {
    pub payload: String,
    pub deep_link: String,
}

/// The deep link that logs a device in: `openchat://login?payload={payload}`.
pub fn deep_link_response(payload: String) -> (r: GenerateDeepLinkResponse)
    ensures
        r.payload@ == payload@,
        r.deep_link@ == "openchat://login?payload="@ + payload@,
{
    let link = concat2("openchat://login?payload=", payload.as_str());
    GenerateDeepLinkResponse { payload, deep_link: link }
}

/// Refuses the revocation of a device session that the user does not have.
pub fn require_session_deleted(deleted: bool) -> (r: Result<(), ApiError>)
    ensures
        deleted ==> r is Ok,
        !deleted ==> (r matches Err(e) && e@ == ApiErrorView::NotFound(
            "Device session not found"@,
        )),
{
    if deleted {
        Ok(())
    } else {
        Err(not_found("Device session not found"))
    }
}

} // verus!
