//! Incoming and outgoing webhooks: their URLs, who may see them, and how a post
//! made through one is shown.
use vstd::prelude::*;
use crate::errors::{concat3, forbidden, not_found, ApiError, ApiErrorView};
use crate::patterns::opt_view;

verus! {

/// The URL that external services post to: `{base_url}/api/hooks/{token}`,
/// shown only where asked for.
pub fn webhook_url(include_url: bool, base_url: &str, token: &str) -> (r: Option<String>)
    ensures
        include_url ==> (r matches Some(u) && u@ == base_url@ + "/api/hooks/"@ + token@),
        !include_url ==> r is None,
{
    if include_url {
        Some(concat3(base_url, "/api/hooks/", token))
    } else {
        None
    }
}

/// A webhook of another organization is answered as if it did not exist.
pub fn require_own_webhook(webhook_org: u128, user_org: u128) -> (r: Result<(), ApiError>)
    ensures
        webhook_org == user_org ==> r is Ok,
        webhook_org != user_org ==> (r matches Err(e) && e@ == ApiErrorView::NotFound(
            "Webhook not found"@,
        )),
{
    if webhook_org == user_org {
        Ok(())
    } else {
        Err(not_found("Webhook not found"))
    }
}

/// A webhook posts only to a channel of its own organization.
pub fn require_org_channel(channel_org: u128, user_org: u128) -> (r: Result<(), ApiError>)
    ensures
        channel_org == user_org ==> r is Ok,
        channel_org != user_org ==> (r matches Err(e) && e@ == ApiErrorView::Authorization(
            "Channel does not belong to your organization"@,
        )),
{
    if channel_org == user_org {
        Ok(())
    } else {
        Err(forbidden("Channel does not belong to your organization"))
    }
}

/// The name shown with a post made through a webhook: the one the post gives,
/// else the webhook's username, else its display name.
pub open spec fn poster_name_spec(
    payload_username: Option<Seq<char>>,
    webhook_username: Option<Seq<char>>,
    display_name: Seq<char>,
) -> Seq<char> {
    match payload_username {
        Some(u) => u,
        None => match webhook_username {
            Some(u) => u,
            None => display_name,
        },
    }
}

/// What an external service posts to an incoming webhook.
pub struct WebhookPayload {
    /// The text of the message.
    pub text: String,
    /// A name to show in place of the webhook's.
    pub username: Option<String>,
    /// An icon to show in place of the webhook's.
    pub icon_url: Option<String>,
    pub channel: Option<String>,
}

/// The name shown with a post made through a webhook.
pub fn poster_name(
    payload: &WebhookPayload,
    webhook_username: Option<&str>,
    display_name: &str,
) -> (n: String)
    ensures
        n@ == poster_name_spec(
            opt_view(payload.username),
            match webhook_username {
                Some(u) => Some(u@),
                None => None::<Seq<char>>,
            },
            display_name@,
        ),
{
    match &payload.username {
        Some(u) => u.clone(),
        None => match webhook_username {
            Some(u) => String::from_str(u),
            None => String::from_str(display_name),
        },
    }
}

/// The avatar shown with a post made through a webhook: the post's icon, else the webhook's.
pub fn poster_avatar(payload: &WebhookPayload, webhook_icon: Option<&str>) -> (a: Option<String>)
    ensures
        match payload.icon_url {
            Some(i) => a matches Some(s) && s@ == i@,
            None => match webhook_icon {
                Some(i) => a matches Some(s) && s@ == i@,
                None => a is None,
            },
        },
{
    match &payload.icon_url {
        Some(i) => Some(i.clone()),
        None => match webhook_icon {
            Some(i) => Some(String::from_str(i)),
            None => None,
        },
    }
}

} // verus!
