//! Workflows: which triggers and actions they may have, the checks made when
//! one is created, changed or triggered, the forms they ask users to fill, and
//! how a workflow is shown with its steps.
use vstd::prelude::*;
use crate::errors::{bad_request, forbidden, not_found, ApiError, ApiErrorView};
use crate::text::{is_blank, is_blank_spec, join_spec, join_strings, str_eq};

verus! {

/// The events that can trigger a workflow.
pub open spec fn trigger_types() -> Seq<Seq<char>> {
    seq![
        "message_posted"@,
        "reaction_added"@,
        "channel_join"@,
        "scheduled"@,
        "webhook"@,
        "slash_command"@,
    ]
}

/// The actions a workflow step can take.
pub open spec fn action_types() -> Seq<Seq<char>> {
    seq![
        "send_message"@,
        "create_form"@,
        "call_webhook"@,
        "add_reaction"@,
        "create_channel"@,
        "invite_to_channel"@,
        "update_channel_topic"@,
        "delay"@,
    ]
}

/// The views of a list of strings.
pub open spec fn views(list: Seq<String>) -> Seq<Seq<char>> {
    list.map_values(|s: String| s@)
}

/// The trigger types, as strings.
pub fn valid_trigger_types() -> (v: Vec<String>)
    ensures
        views(v@) == trigger_types(),
{
    let v = vec![
        String::from_str("message_posted"),
        String::from_str("reaction_added"),
        String::from_str("channel_join"),
        String::from_str("scheduled"),
        String::from_str("webhook"),
        String::from_str("slash_command"),
    ];
    assert(views(v@) =~= trigger_types());
    v
}

/// The action types, as strings.
pub fn valid_action_types() -> (v: Vec<String>)
    ensures
        views(v@) == action_types(),
{
    let v = vec![
        String::from_str("send_message"),
        String::from_str("create_form"),
        String::from_str("call_webhook"),
        String::from_str("add_reaction"),
        String::from_str("create_channel"),
        String::from_str("invite_to_channel"),
        String::from_str("update_channel_topic"),
        String::from_str("delay"),
    ];
    assert(views(v@) =~= action_types());
    v
}

/// Whether `t` is one of the strings of `list`.
fn listed(t: &str, list: &Vec<String>) -> (b: bool)
    ensures
        b == views(list@).contains(t@),
{
    let mut i: usize = 0;
    while i < list.len()
        invariant
            i <= list@.len(),
            forall|j: int| 0 <= j < i ==> list@[j]@ != t@,
        decreases list.len() - i,
    {
        if str_eq(list[i].as_str(), t) {
            assert(views(list@)[i as int] == t@);
            return true;
        }
        i = i + 1;
    }
    assert forall|j: int| 0 <= j < views(list@).len() implies views(list@)[j] != t@ by {
        assert(views(list@)[j] == list@[j]@);
    }
    false
}

/// The refusal of a type that is not among `allowed`, with `kind` naming what is refused.
pub open spec fn invalid_type_error(kind: Seq<char>, t: Seq<char>, allowed: Seq<Seq<char>>) -> ApiErrorView {
    ApiErrorView::BadRequest(
        "Invalid "@ + kind + " type: "@ + t + ". Must be one of: "@ + join_spec(allowed, ", "@),
    )
}

fn check_listed(kind: &str, t: &str, allowed: &Vec<String>) -> (r: Result<(), ApiError>)
    ensures
        views(allowed@).contains(t@) ==> r is Ok,
        !views(allowed@).contains(t@) ==> (r matches Err(e) && e@ == invalid_type_error(
            kind@,
            t@,
            views(allowed@),
        )),
{
    if listed(t, allowed) {
        return Ok(());
    }
    let mut msg = String::from_str("Invalid ");
    msg.append(kind);
    msg.append(" type: ");
    msg.append(t);
    msg.append(". Must be one of: ");
    let all = join_strings(allowed, ", ");
    msg.append(all.as_str());
    Err(ApiError::BadRequest(msg))
}

/// Checks a trigger type.
pub fn validate_trigger_type(trigger_type: &str) -> (r: Result<(), ApiError>)
    ensures
        trigger_types().contains(trigger_type@) ==> r is Ok,
        !trigger_types().contains(trigger_type@) ==> (r matches Err(e) && e@ == invalid_type_error(
            "trigger"@,
            trigger_type@,
            trigger_types(),
        )),
{
    let allowed = valid_trigger_types();
    check_listed("trigger", trigger_type, &allowed)
}

/// Checks an action type.
pub fn validate_action_type(action_type: &str) -> (r: Result<(), ApiError>)
    ensures
        action_types().contains(action_type@) ==> r is Ok,
        !action_types().contains(action_type@) ==> (r matches Err(e) && e@ == invalid_type_error(
            "action"@,
            action_type@,
            action_types(),
        )),
{
    let allowed = valid_action_types();
    check_listed("action", action_type, &allowed)
}

/// Whether a workflow name is acceptable: not blank, at most 255 bytes.
pub open spec fn workflow_name_ok(name: Seq<char>) -> bool {
    !is_blank_spec(name) && vstd::utf8::encode_utf8(name).len() <= 255
}

/// Checks a workflow name.
pub fn check_workflow_name(name: &str) -> (r: Result<(), ApiError>)
    ensures
        workflow_name_ok(name@) ==> r is Ok,
        !workflow_name_ok(name@) ==> (r matches Err(e) && e@ == ApiErrorView::BadRequest(
            "Workflow name must be 1-255 characters"@,
        )),
{
    if is_blank(name) || name.as_bytes().len() > 255 {
        return Err(bad_request("Workflow name must be 1-255 characters"));
    }
    Ok(())
}

/// The first action type of `actions`, in order, that is not one a step may take.
pub open spec fn first_invalid_action(actions: Seq<Seq<char>>) -> Option<Seq<char>>
    decreases actions.len(),
{
    if actions.len() == 0 {
        None
    } else if !action_types().contains(actions[0]) {
        Some(actions[0])
    } else {
        first_invalid_action(actions.drop_first())
    }
}

/// Checks the action types of a workflow's steps, in order.
pub fn validate_step_actions(actions: &Vec<String>) -> (r: Result<(), ApiError>)
    ensures
        match first_invalid_action(views(actions@)) {
            Some(a) => r matches Err(e) && e@ == invalid_type_error("action"@, a, action_types()),
            None => r is Ok,
        },
{
    let mut i: usize = 0;
    assert(views(actions@).skip(0) =~= views(actions@));
    while i < actions.len()
        invariant
            i <= actions@.len(),
            first_invalid_action(views(actions@)) == first_invalid_action(
                views(actions@).skip(i as int),
            ),
        decreases actions.len() - i,
    {
        proof {
            assert(views(actions@).skip(i as int)[0] == actions@[i as int]@);
            assert(views(actions@).skip(i as int).drop_first() =~= views(actions@).skip(i + 1));
        }
        validate_action_type(actions[i].as_str())?;
        i = i + 1;
    }
    Ok(())
}

/// Why a new workflow is refused: its name, then its trigger, then its steps' actions.
pub open spec fn new_workflow_error(
    name: Seq<char>,
    trigger_type: Seq<char>,
    actions: Seq<Seq<char>>,
) -> Option<ApiErrorView> {
    if !workflow_name_ok(name) {
        Some(ApiErrorView::BadRequest("Workflow name must be 1-255 characters"@))
    } else if !trigger_types().contains(trigger_type) {
        Some(invalid_type_error("trigger"@, trigger_type, trigger_types()))
    } else {
        match first_invalid_action(actions) {
            Some(a) => Some(invalid_type_error("action"@, a, action_types())),
            None => None,
        }
    }
}

/// Checks a new workflow: its name, its trigger type and the action of each step.
pub fn validate_new_workflow(name: &str, trigger_type: &str, actions: &Vec<String>) -> (r: Result<
    (),
    ApiError,
>)
    ensures
        match new_workflow_error(name@, trigger_type@, views(actions@)) {
            Some(v) => r matches Err(e) && e@ == v,
            None => r is Ok,
        },
{
    check_workflow_name(name)?;
    validate_trigger_type(trigger_type)?;
    validate_step_actions(actions)
}

/// Checks the fields of a workflow update that are given: its name and trigger type.
pub fn validate_workflow_update(name: Option<&str>, trigger_type: Option<&str>) -> (r: Result<
    (),
    ApiError,
>)
    ensures
        name matches Some(n) && !workflow_name_ok(n@) ==> (r matches Err(e) && e@
            == ApiErrorView::BadRequest("Workflow name must be 1-255 characters"@)),
        (name matches Some(n) ==> workflow_name_ok(n@)) && (trigger_type matches Some(t)
            && !trigger_types().contains(t@)) ==> (r matches Err(e) && e@ == invalid_type_error(
            "trigger"@,
            trigger_type.unwrap()@,
            trigger_types(),
        )),
        (name matches Some(n) ==> workflow_name_ok(n@)) && (trigger_type matches Some(t)
            ==> trigger_types().contains(t@)) ==> r is Ok,
{
    if let Some(n) = name {
        check_workflow_name(n)?;
    }
    if let Some(t) = trigger_type {
        validate_trigger_type(t)?;
    }
    Ok(())
}

/// Refuses a workflow of another organization.
pub fn require_workflow_org(workflow_org: u128, user_org: u128) -> (r: Result<(), ApiError>)
    ensures
        workflow_org == user_org ==> r is Ok,
        workflow_org != user_org ==> (r matches Err(e) && e@ == ApiErrorView::Authorization(
            "Workflow does not belong to your organization"@,
        )),
{
    if workflow_org == user_org {
        Ok(())
    } else {
        Err(forbidden("Workflow does not belong to your organization"))
    }
}

/// Refuses an execution that belongs to another workflow.
pub fn check_execution_workflow(execution_workflow: u128, workflow_id: u128) -> (r: Result<
    (),
    ApiError,
>)
    ensures
        execution_workflow == workflow_id ==> r is Ok,
        execution_workflow != workflow_id ==> (r matches Err(e) && e@ == ApiErrorView::NotFound(
            "Execution not found for this workflow"@,
        )),
{
    if execution_workflow == workflow_id {
        Ok(())
    } else {
        Err(not_found("Execution not found for this workflow"))
    }
}

/// Why a call of a workflow's webhook is refused: the workflow is disabled, or
/// not triggered by webhooks.
pub open spec fn webhook_trigger_error(enabled: bool, trigger_type: Seq<char>) -> Option<
    Seq<char>,
> {
    if !enabled {
        Some("Workflow is not enabled"@)
    } else if trigger_type != "webhook"@ {
        Some("This workflow does not have a webhook trigger"@)
    } else {
        None
    }
}

/// Checks that a workflow may be triggered through its webhook.
pub fn check_webhook_trigger(enabled: bool, trigger_type: &str) -> (r: Result<(), ApiError>)
    ensures
        match webhook_trigger_error(enabled, trigger_type@) {
            Some(msg) => r matches Err(e) && e@ == ApiErrorView::BadRequest(msg),
            None => r is Ok,
        },
{
    if !enabled {
        return Err(bad_request("Workflow is not enabled"));
    }
    if !str_eq(trigger_type, "webhook") {
        return Err(bad_request("This workflow does not have a webhook trigger"));
    }
    Ok(())
}

/// Why a user may not see (`submitting` false) or submit a form: it is meant
/// for someone else, or, when submitting, it is no longer pending.
pub open spec fn form_error(target_user: u128, user_id: u128, status: Seq<char>, submitting: bool) -> Option<
    ApiErrorView,
> {
    if target_user != user_id {
        Some(ApiErrorView::Authorization("You are not the target of this form"@))
    } else if submitting && status != "pending"@ {
        Some(ApiErrorView::BadRequest("Form has already been submitted"@))
    } else {
        None
    }
}

/// Checks that a user may see or submit a form.
pub fn check_form(target_user: u128, user_id: u128, status: &str, submitting: bool) -> (r: Result<
    (),
    ApiError,
>)
    ensures
        match form_error(target_user, user_id, status@, submitting) {
            Some(v) => r matches Err(e) && e@ == v,
            None => r is Ok,
        },
{
    if target_user != user_id {
        return Err(forbidden("You are not the target of this form"));
    }
    if submitting && !str_eq(status, "pending") {
        return Err(bad_request("Form has already been submitted"));
    }
    Ok(())
}

/// A form once submitted can never be submitted again, whoever tries.
pub proof fn law_form_submitted_once(target_user: u128, user_id: u128, status: Seq<char>)
    requires
        status != "pending"@,
    ensures
        form_error(target_user, user_id, status, true) is Some,
{
}


/// The position each new step is stored at: the step's index in the request,
/// as the 32-bit order the steps table holds.
pub fn step_orders(count: usize) -> (v: Vec<i32>)
    ensures
        v@.len() == count,
        forall|i: int| 0 <= i < count ==> #[trigger] v@[i] == i as i32,
{
    let mut v: Vec<i32> = Vec::new();
    let mut i: usize = 0;
    while i < count
        invariant
            i <= count,
            v@.len() == i,
            forall|k: int| 0 <= k < i ==> #[trigger] v@[k] == k as i32,
        decreases count - i,
    {
        #[verifier::truncate]
        let order: i32 = i as i32;
        v.push(order);
        i = i + 1;
    }
    v
}

/// A stored step of a workflow, its configuration as JSON text and its time
/// as RFC 3339 text.
#[derive(Debug)]
pub struct WorkflowStepResponse {
    pub id: u128,
    pub workflow_id: u128,
    pub step_order: i32,
    pub action_type: String,
    pub action_config: String,
    pub created_at: String,
}

/// A stored workflow, its trigger configuration as JSON text and its times as
/// RFC 3339 text.
#[derive(Debug)]
pub struct WorkflowRow {
    pub id: u128,
    pub org_id: u128,
    pub name: String,
    pub description: Option<String>,
    pub trigger_type: String,
    pub trigger_config: String,
    pub enabled: bool,
    pub created_by: u128,
    pub created_at: String,
    pub updated_at: String,
}

/// A workflow as the API shows it: the stored workflow with its steps.
#[derive(Debug)]
pub struct WorkflowResponse {
    pub id: u128,
    pub org_id: u128,
    pub name: String,
    pub description: Option<String>,
    pub trigger_type: String,
    pub trigger_config: String,
    pub enabled: bool,
    pub created_by: u128,
    pub created_at: String,
    pub updated_at: String,
    pub steps: Vec<WorkflowStepResponse>,
}

/// The stored workflow shown with the given steps, in the order given.
pub fn workflow_response(w: WorkflowRow, steps: Vec<WorkflowStepResponse>) -> (r: WorkflowResponse)
    ensures
        r.id == w.id,
        r.org_id == w.org_id,
        r.name == w.name,
        r.description == w.description,
        r.trigger_type == w.trigger_type,
        r.trigger_config == w.trigger_config,
        r.enabled == w.enabled,
        r.created_by == w.created_by,
        r.created_at == w.created_at,
        r.updated_at == w.updated_at,
        r.steps@ == steps@,
{
    WorkflowResponse {
        id: w.id,
        org_id: w.org_id,
        name: w.name,
        description: w.description,
        trigger_type: w.trigger_type,
        trigger_config: w.trigger_config,
        enabled: w.enabled,
        created_by: w.created_by,
        created_at: w.created_at,
        updated_at: w.updated_at,
        steps: steps,
    }
}

} // verus!
