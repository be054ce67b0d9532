//! Polls: the checks made when one is created or closed, and what creation stores.
use vstd::prelude::*;
use crate::commands::Target;
use crate::errors::{bad_request, forbidden, ApiError, ApiErrorView};
use crate::text::str_eq;

verus! {

/// The fewest options a poll may have.
pub const MIN_POLL_OPTIONS: usize = 2;

/// The most options a poll may have.
pub const MAX_POLL_OPTIONS: usize = 10;

/// An option of a poll: its position among the options and its text.
pub struct PollOption {
    pub index: i32,
    pub text: String,
}

/// What creating a poll posts and stores.
pub struct PollPlan {
    /// Where the poll's message is posted.
    pub target: Target,
    /// The text of the poll's message.
    pub content: String,
    /// `single` or `multiple`.
    pub poll_type: String,
    pub anonymous: bool,
    /// The options, numbered from 0 in the order given.
    pub options: Vec<PollOption>,
}

/// The poll type asked for, `single` where none is given.
pub open spec fn poll_type_spec(poll_type: Option<Seq<char>>) -> Seq<char> {
    match poll_type {
        Some(t) => t,
        None => "single"@,
    }
}

/// The text of the message that carries a poll.
pub open spec fn poll_content(question: Seq<char>) -> Seq<char> {
    "\u{1F4CA} **Poll:** "@ + question
}

/// The error that refuses a new poll, in the order in which the checks are made,
/// or `None` when the poll may be created.
pub open spec fn create_poll_error(
    option_count: nat,
    question: Seq<char>,
    poll_type: Option<Seq<char>>,
    channel_id: Option<u128>,
    dm_id: Option<u128>,
) -> Option<Seq<char>> {
    if option_count < 2 {
        Some("Poll must have at least 2 options"@)
    } else if option_count > 10 {
        Some("Poll cannot have more than 10 options"@)
    } else if question.len() == 0 {
        Some("Poll question cannot be empty"@)
    } else if !(poll_type_spec(poll_type) == "single"@ || poll_type_spec(poll_type)
        == "multiple"@) {
        Some("poll_type must be 'single' or 'multiple'"@)
    } else if channel_id is None && dm_id is None {
        Some("channel_id or dm_id is required"@)
    } else {
        None
    }
}

/// The plan `p` is what a valid request creates: posted to the channel if one is
/// given, else to the DM, with the poll's text, type, anonymity and numbered options.
pub open spec fn is_poll_plan(
    p: PollPlan,
    question: Seq<char>,
    options: Seq<String>,
    poll_type: Option<Seq<char>>,
    anonymous: Option<bool>,
    channel_id: Option<u128>,
    dm_id: Option<u128>,
) -> bool {
    &&& p.target == match channel_id {
        Some(c) => Target::Channel(c),
        None => Target::Dm(dm_id.unwrap()),
    }
    &&& p.content@ == poll_content(question)
    &&& p.poll_type@ == poll_type_spec(poll_type)
    &&& p.anonymous == match anonymous {
        Some(a) => a,
        None => false,
    }
    &&& p.options@.len() == options.len()
    &&& forall|i: int|
        0 <= i < options.len() ==> (#[trigger] p.options@[i]).index == i && p.options@[i].text@
            == options[i]@
}

/// Checks a new poll and gives what creating it posts and stores.
pub fn plan_poll(
    question: &str,
    options: &Vec<String>,
    poll_type: Option<&str>,
    anonymous: Option<bool>,
    channel_id: Option<u128>,
    dm_id: Option<u128>,
) -> (r: Result<PollPlan, ApiError>)
    ensures
        ({
            let pt = match poll_type {
                Some(s) => Some(s@),
                None => None::<Seq<char>>,
            };
            match create_poll_error(options@.len(), question@, pt, channel_id, dm_id) {
                Some(msg) => r matches Err(e) && e@ == ApiErrorView::BadRequest(msg),
                None => r matches Ok(p) && is_poll_plan(
                    p,
                    question@,
                    options@,
                    pt,
                    anonymous,
                    channel_id,
                    dm_id,
                ),
            }
        }),
{
    if options.len() < MIN_POLL_OPTIONS {
        return Err(bad_request("Poll must have at least 2 options"));
    }
    if options.len() > MAX_POLL_OPTIONS {
        return Err(bad_request("Poll cannot have more than 10 options"));
    }
    if question.is_empty() {
        return Err(bad_request("Poll question cannot be empty"));
    }
    let kind: &str = match poll_type {
        Some(t) => t,
        None => "single",
    };
    if !(str_eq(kind, "single") || str_eq(kind, "multiple")) {
        return Err(bad_request("poll_type must be 'single' or 'multiple'"));
    }
    let target = match channel_id {
        Some(c) => Target::Channel(c),
        None => match dm_id {
            Some(d) => Target::Dm(d),
            None => {
                return Err(bad_request("channel_id or dm_id is required"));
            },
        },
    };
    let mut numbered: Vec<PollOption> = Vec::new();
    let mut i: usize = 0;
    while i < options.len()
        invariant
            i <= options.len() <= 10,
            numbered@.len() == i,
            forall|j: int|
                0 <= j < i ==> (#[trigger] numbered@[j]).index == j && numbered@[j].text@
                    == options@[j]@,
        decreases options.len() - i,
    {
        numbered.push(PollOption { index: i as i32, text: options[i].clone() });
        i = i + 1;
    }
    let content = String::from_str("\u{1F4CA} **Poll:** ").concat(question);
    Ok(
        PollPlan {
            target,
            content,
            poll_type: String::from_str(kind),
            anonymous: match anonymous {
                Some(a) => a,
                None => false,
            },
            options: numbered,
        },
    )
}

/// The results shown for one option of a poll.
pub struct PollOptionResultResponse {
    pub index: i32,
    pub text: String,
    pub votes: i64,
}

/// The results of a poll just created: each option, in order, with no vote.
pub fn fresh_results(plan: &PollPlan) -> (v: Vec<PollOptionResultResponse>)
    ensures
        v@.len() == plan.options@.len(),
        forall|i: int|
            0 <= i < v@.len() ==> (#[trigger] v@[i]).index == plan.options@[i].index
                && v@[i].text@ == plan.options@[i].text@ && v@[i].votes == 0,
{
    let mut v: Vec<PollOptionResultResponse> = Vec::new();
    let mut i: usize = 0;
    while i < plan.options.len()
        invariant
            i <= plan.options@.len(),
            v@.len() == i,
            forall|j: int|
                0 <= j < i ==> (#[trigger] v@[j]).index == plan.options@[j].index
                    && v@[j].text@ == plan.options@[j].text@ && v@[j].votes == 0,
        decreases plan.options.len() - i,
    {
        let o = &plan.options[i];
        v.push(PollOptionResultResponse { index: o.index, text: o.text.clone(), votes: 0 });
        i = i + 1;
    }
    v
}

/// Why closing a poll is refused, or `None` when the user may close it:
/// only its creator may, and only while it is open.
pub open spec fn close_poll_error(created_by: u128, user_id: u128, closed: bool) -> Option<
    ApiErrorView,
> {
    if created_by != user_id {
        Some(ApiErrorView::Authorization("Only the poll creator can close it"@))
    } else if closed {
        Some(ApiErrorView::BadRequest("Poll is already closed"@))
    } else {
        None
    }
}

/// Checks that `user_id` may close a poll made by `created_by`.
pub fn check_close_poll(created_by: u128, user_id: u128, closed: bool) -> (r: Result<(), ApiError>)
    ensures
        match close_poll_error(created_by, user_id, closed) {
            Some(v) => r matches Err(e) && e@ == v,
            None => r is Ok,
        },
{
    if created_by != user_id {
        return Err(forbidden("Only the poll creator can close it"));
    }
    if closed {
        return Err(bad_request("Poll is already closed"));
    }
    Ok(())
}

} // verus!
