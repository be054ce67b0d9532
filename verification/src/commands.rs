//! Slash commands: the builtin commands, how a command line is dispatched, and
//! the rules for creating, changing and deleting custom (webhook) commands.
use vstd::prelude::*;
use crate::errors::{ApiError, ApiErrorView, bad_request, concat2, forbidden, internal};
use crate::patterns::opt_view;
use crate::text::{chars_of, string_of, str_eq};

verus! {

/// A command as the command list shows it.
#[derive(Debug)]
pub struct CommandInfo {
    pub name: String,
    pub description: String,
    pub usage_hint: Option<String>,
    pub handler_type: String,
    pub id: Option<u128>,
}

/// The mathematical model of a [`CommandInfo`].
pub struct CommandInfoView {
    pub name: Seq<char>,
    pub description: Seq<char>,
    pub usage_hint: Option<Seq<char>>,
    pub handler_type: Seq<char>,
    pub id: Option<u128>,
}

impl View for CommandInfo {
    type V = CommandInfoView;

    open spec fn view(&self) -> CommandInfoView {
        CommandInfoView {
            name: self.name@,
            description: self.description@,
            usage_hint: opt_view(self.usage_hint),
            handler_type: self.handler_type@,
            id: self.id,
        }
    }
}

/// A custom command stored for an organization.
#[derive(Debug)]
pub struct SlashCommand {
    pub id: u128,
    pub org_id: u128,
    pub command_name: String,
    pub description: String,
    pub usage_hint: Option<String>,
    pub handler_type: String,
    pub webhook_url: Option<String>,
    pub response_type: String,
    pub created_by: u128,
    pub enabled: bool,
}

/// The shrug face.
pub open spec fn shrug_face() -> Seq<char> {
    "¯\\_(ツ)_/¯"@
}

/// The table-flip face.
pub open spec fn tableflip_face() -> Seq<char> {
    "(╯°□°)╯︵ ┻━┻"@
}

/// A builtin entry: name, description, usage hint.
pub open spec fn builtin_spec() -> Seq<(Seq<char>, Seq<char>, Option<Seq<char>>)> {
    seq![
        ("shrug"@, "Appends ¯\\_(ツ)_/¯ to your message"@, Some("[message]"@)),
        ("tableflip"@, "Appends (╯°□°)╯︵ ┻━┻ to your message"@, Some("[message]"@)),
        ("me"@, "Displays action text in italics"@, Some("<action>"@)),
        ("mute"@, "Mute the current channel or DM"@, None),
        ("unmute"@, "Unmute the current channel or DM"@, None),
    ]
}

/// The builtin commands, as listed.
pub open spec fn builtin_infos() -> Seq<CommandInfoView> {
    builtin_spec().map_values(
        |b: (Seq<char>, Seq<char>, Option<Seq<char>>)|
            CommandInfoView {
                name: b.0,
                description: b.1,
                usage_hint: b.2,
                handler_type: "builtin"@,
                id: None,
            },
    )
}

fn builtin(name: &str, description: &str, usage_hint: Option<&str>) -> (c: CommandInfo)
    ensures
        c@ == (CommandInfoView {
            name: name@,
            description: description@,
            usage_hint: match usage_hint {
                Some(h) => Some(h@),
                None => None,
            },
            handler_type: "builtin"@,
            id: None,
        }),
{
    CommandInfo {
        name: String::from_str(name),
        description: String::from_str(description),
        usage_hint: match usage_hint {
            Some(h) => Some(String::from_str(h)),
            None => None,
        },
        handler_type: String::from_str("builtin"),
        id: None,
    }
}

/// The builtin commands: shrug, tableflip, me, mute and unmute.
pub fn builtin_commands() -> (v: Vec<CommandInfo>)
    ensures
        v@.map_values(|c: CommandInfo| c@) == builtin_infos(),
{
    let mut v: Vec<CommandInfo> = Vec::new();
    v.push(builtin("shrug", "Appends ¯\\_(ツ)_/¯ to your message", Some("[message]")));
    v.push(builtin("tableflip", "Appends (╯°□°)╯︵ ┻━┻ to your message", Some("[message]")));
    v.push(builtin("me", "Displays action text in italics", Some("<action>")));
    v.push(builtin("mute", "Mute the current channel or DM", None));
    v.push(builtin("unmute", "Unmute the current channel or DM", None));
    assert(v@.map_values(|c: CommandInfo| c@) =~= builtin_infos());
    v
}

/// Whether a name is the name of a builtin command.
pub open spec fn is_builtin_name(name: Seq<char>) -> bool {
    name == "shrug"@ || name == "tableflip"@ || name == "me"@ || name == "mute"@ || name
        == "unmute"@
}

/// `s` without its leading slashes (`trim_start_matches('/')`).
pub open spec fn strip_slashes(s: Seq<char>) -> Seq<char>
    decreases s.len(),
{
    if s.len() > 0 && s[0] == '/' {
        strip_slashes(s.drop_first())
    } else {
        s
    }
}

proof fn lemma_strip_slashes_skip(s: Seq<char>, k: int)
    requires
        0 <= k <= s.len(),
        forall|i: int| 0 <= i < k ==> #[trigger] s[i] == '/',
    ensures
        strip_slashes(s) == strip_slashes(s.subrange(k, s.len() as int)),
    decreases k,
{
    if k > 0 {
        assert(s.drop_first().subrange(k - 1, s.drop_first().len() as int) =~= s.subrange(
            k,
            s.len() as int,
        ));
        lemma_strip_slashes_skip(s.drop_first(), k - 1);
    } else {
        assert(s.subrange(0, s.len() as int) =~= s);
    }
}

/// The text without its leading slashes.
pub fn trim_leading_slashes(s: &str) -> (t: String)
    ensures
        t@ == strip_slashes(s@),
{
    let v = chars_of(s);
    let n = v.len();
    let mut i: usize = 0;
    while i < n && v[i] == '/'
        invariant
            n == v@.len(),
            i <= n,
            forall|k: int| 0 <= k < i ==> #[trigger] v@[k] == '/',
        decreases n - i,
    {
        i = i + 1;
    }
    let mut out: Vec<char> = Vec::new();
    let mut k: usize = i;
    while k < n
        invariant
            n == v@.len(),
            i <= k <= n,
            out@ == v@.subrange(i as int, k as int),
        decreases n - k,
    {
        out.push(v[k]);
        k = k + 1;
    }
    proof {
        lemma_strip_slashes_skip(v@, i as int);
        let rest = v@.subrange(i as int, n as int);
        if i < n {
            assert(rest[0] == v@[i as int]);
        }
        assert(strip_slashes(rest) == rest);
    }
    string_of(out.as_slice())
}

/// The Unicode lowercase form of a text.
pub uninterp spec fn lowercase(s: Seq<char>) -> Seq<char>;

/// `str::to_lowercase` of std: each character replaced by its Unicode lowercase
/// mapping. The claim is that the result is `lowercase(s)`.
#[verifier::external_body]
fn to_lowercase(s: &str) -> (t: String)
    ensures
        t@ == lowercase(s@),
{
    s.to_lowercase()
}

/// The name a command line or a new command refers to: without leading slashes, lowercased.
pub open spec fn command_name_spec(raw: Seq<char>) -> Seq<char> {
    lowercase(strip_slashes(raw))
}

/// Normalizes a command name: leading slashes removed, then lowercased.
pub fn normalize_command_name(raw: &str) -> (n: String)
    ensures
        n@ == command_name_spec(raw@),
{
    let t = trim_leading_slashes(raw);
    to_lowercase(t.as_str())
}

/// What running a command does.
#[derive(Debug)]
pub enum CommandAction {
    /// Post this text as a message in the channel or DM.
    Post(String),
    /// Answer this text to the caller alone.
    Reply(String),
    /// Mute (`true`) or unmute (`false`) the channel or DM.
    SetMute(bool),
    /// Not a builtin: look up the organization's custom command of this name.
    Custom,
}

/// The mathematical model of a [`CommandAction`].
pub enum CommandActionView {
    Post(Seq<char>),
    Reply(Seq<char>),
    SetMute(bool),
    Custom,
}

impl View for CommandAction {
    type V = CommandActionView;

    open spec fn view(&self) -> CommandActionView {
        match self {
            CommandAction::Post(s) => CommandActionView::Post(s@),
            CommandAction::Reply(s) => CommandActionView::Reply(s@),
            CommandAction::SetMute(b) => CommandActionView::SetMute(*b),
            CommandAction::Custom => CommandActionView::Custom,
        }
    }
}

/// `text` followed by a face, or the face alone when `text` is empty.
pub open spec fn with_face(text: Seq<char>, face: Seq<char>) -> Seq<char> {
    if text.len() == 0 {
        face
    } else {
        text + " "@ + face
    }
}

/// What a builtin command does with its text; `Custom` for any other name.
pub open spec fn builtin_action(name: Seq<char>, text: Seq<char>) -> CommandActionView {
    if name == "shrug"@ {
        CommandActionView::Post(with_face(text, shrug_face()))
    } else if name == "tableflip"@ {
        CommandActionView::Post(with_face(text, tableflip_face()))
    } else if name == "me"@ {
        if text.len() == 0 {
            CommandActionView::Reply("Usage: /me <action>"@)
        } else {
            CommandActionView::Post("*"@ + text + "*"@)
        }
    } else if name == "mute"@ {
        CommandActionView::SetMute(true)
    } else if name == "unmute"@ {
        CommandActionView::SetMute(false)
    } else {
        CommandActionView::Custom
    }
}

fn face_message(text: &str, face: &str) -> (s: String)
    ensures
        s@ == with_face(text@, face@),
{
    if text.is_empty() {
        String::from_str(face)
    } else {
        String::from_str(text).concat(" ").concat(face)
    }
}

/// Dispatches a builtin command (`name` already normalized) with its text.
pub fn builtin_action_for(name: &str, text: &str) -> (a: CommandAction)
    ensures
        a@ == builtin_action(name@, text@),
{
    if str_eq(name, "shrug") {
        CommandAction::Post(face_message(text, "¯\\_(ツ)_/¯"))
    } else if str_eq(name, "tableflip") {
        CommandAction::Post(face_message(text, "(╯°□°)╯︵ ┻━┻"))
    } else if str_eq(name, "me") {
        if text.is_empty() {
            CommandAction::Reply(String::from_str("Usage: /me <action>"))
        } else {
            CommandAction::Post(String::from_str("*").concat(text).concat("*"))
        }
    } else if str_eq(name, "mute") {
        CommandAction::SetMute(true)
    } else if str_eq(name, "unmute") {
        CommandAction::SetMute(false)
    } else {
        CommandAction::Custom
    }
}

/// What a custom command lookup leads to: the webhook to call, or the refusal.
pub open spec fn custom_spec(
    name: Seq<char>,
    found: Option<(bool, Seq<char>, Option<Seq<char>>)>,
) -> Result<Seq<char>, ApiErrorView> {
    match found {
        Some((enabled, handler, url)) => if enabled && handler == "webhook"@ {
            match url {
                Some(u) => Ok(u),
                None => Err(ApiErrorView::Internal("Webhook command has no URL configured"@)),
            }
        } else if !enabled {
            Err(ApiErrorView::BadRequest("Command /"@ + name + " is currently disabled"@))
        } else {
            Err(ApiErrorView::NotFound("Unknown command: /"@ + name))
        },
        None => Err(ApiErrorView::NotFound("Unknown command: /"@ + name)),
    }
}

/// The webhook URL to call for a custom command named `name`, given the
/// organization's command of that name if there is one: an enabled webhook
/// command is called, a disabled one is refused, and anything else is unknown.
pub fn resolve_custom_command(name: &str, found: Option<&SlashCommand>) -> (r: Result<
    String,
    ApiError,
>)
    ensures
        match (r, custom_spec(
            name@,
            match found {
                Some(c) => Some((c.enabled, c.handler_type@, opt_view(c.webhook_url))),
                None => None,
            },
        )) {
            (Ok(u), Ok(v)) => u@ == v,
            (Err(e), Err(v)) => e@ == v,
            _ => false,
        },
{
    match found {
        Some(cmd) => {
            if cmd.enabled && str_eq(cmd.handler_type.as_str(), "webhook") {
                match &cmd.webhook_url {
                    Some(u) => Ok(String::from_str(u.as_str())),
                    None => Err(internal("Webhook command has no URL configured")),
                }
            } else if !cmd.enabled {
                Err(
                    ApiError::BadRequest(
                        String::from_str("Command /").concat(name).concat(" is currently disabled"),
                    ),
                )
            } else {
                Err(ApiError::NotFound(concat2("Unknown command: /", name)))
            }
        },
        None => Err(ApiError::NotFound(concat2("Unknown command: /", name))),
    }
}

/// What a webhook's answer becomes: posted in the channel when the command's
/// response type is `in_channel`, otherwise answered to the caller alone.
pub fn webhook_reply_action(response_type: &str, response_text: String) -> (a: CommandAction)
    ensures
        a@ == (if response_type@ == "in_channel"@ {
            CommandActionView::Post(response_text@)
        } else {
            CommandActionView::Reply(response_text@)
        }),
{
    if str_eq(response_type, "in_channel") {
        CommandAction::Post(response_text)
    } else {
        CommandAction::Reply(response_text)
    }
}

/// The command text sent to a webhook: the name with its slash.
pub fn webhook_command_text(name: &str) -> (s: String)
    ensures
        s@ == "/"@ + name@,
{
    concat2("/", name)
}

/// Where a command's message goes: the channel if given, otherwise the DM.
#[derive(Debug, Clone, Copy, PartialEq, Eq)]
pub enum Target {
    Channel(u128),
    Dm(u128),
}

/// The channel if given, else the DM if given, else `None`.
pub open spec fn target_spec(channel_id: Option<u128>, dm_id: Option<u128>) -> Option<Target> {
    match channel_id {
        Some(c) => Some(Target::Channel(c)),
        None => match dm_id {
            Some(d) => Some(Target::Dm(d)),
            None => None,
        },
    }
}

/// Where a command posts: the channel if given, otherwise the DM; one of them is required.
pub fn command_post_target(channel_id: Option<u128>, dm_id: Option<u128>) -> (r: Result<
    Target,
    ApiError,
>)
    ensures
        match target_spec(channel_id, dm_id) {
            Some(t) => r == Ok::<Target, ApiError>(t),
            None => r matches Err(e) && e@ == ApiErrorView::BadRequest(
                "channel_id or dm_id is required"@,
            ),
        },
{
    match channel_id {
        Some(c) => Ok(Target::Channel(c)),
        None => match dm_id {
            Some(d) => Ok(Target::Dm(d)),
            None => Err(bad_request("channel_id or dm_id is required")),
        },
    }
}

/// What `/mute` and `/unmute` store and answer.
pub open spec fn mute_spec(mute: bool) -> (Seq<char>, Seq<char>) {
    if mute {
        ("nothing"@, "Channel muted"@)
    } else {
        ("all"@, "Channel unmuted"@)
    }
}

/// The notification preference that `/mute` (or `/unmute`) stores, and its
/// answer; the channel or DM is required.
pub fn mute_plan(channel_id: Option<u128>, dm_id: Option<u128>, mute: bool) -> (r: Result<
    (Target, String, String),
    ApiError,
>)
    ensures
        match target_spec(channel_id, dm_id) {
            Some(t) => r matches Ok((rt, pref, reply)) && rt == t && (pref@, reply@) == mute_spec(
                mute,
            ),
            None => r matches Err(e) && e@ == ApiErrorView::BadRequest(
                "channel_id or dm_id is required for mute/unmute"@,
            ),
        },
{
    let target = match channel_id {
        Some(c) => Target::Channel(c),
        None => match dm_id {
            Some(d) => Target::Dm(d),
            None => {
                return Err(bad_request("channel_id or dm_id is required for mute/unmute"));
            },
        },
    };
    if mute {
        Ok((target, String::from_str("nothing"), String::from_str("Channel muted")))
    } else {
        Ok((target, String::from_str("all"), String::from_str("Channel unmuted")))
    }
}

/// Whether a response type is one a command may have.
pub open spec fn valid_response_type(t: Seq<char>) -> bool {
    t == "ephemeral"@ || t == "in_channel"@
}

/// The name and response type of a new custom command, or why it is refused:
/// a builtin's name, a name that is empty or longer than 50 bytes, or a
/// response type other than `ephemeral` or `in_channel` (default `in_channel`).
pub open spec fn create_spec(name: Seq<char>, response_type: Option<Seq<char>>) -> Result<
    (Seq<char>, Seq<char>),
    ApiErrorView,
> {
    let rt = match response_type {
        Some(t) => t,
        None => "in_channel"@,
    };
    if is_builtin_name(name) {
        Err(ApiErrorView::BadRequest("Cannot override builtin command: /"@ + name))
    } else if name.len() == 0 || vstd::utf8::encode_utf8(name).len() > 50 {
        Err(ApiErrorView::BadRequest("Command name must be 1-50 characters"@))
    } else if !valid_response_type(rt) {
        Err(ApiErrorView::BadRequest("response_type must be 'ephemeral' or 'in_channel'"@))
    } else {
        Ok((name, rt))
    }
}

fn is_builtin(name: &str) -> (b: bool)
    ensures
        b == is_builtin_name(name@),
{
    str_eq(name, "shrug") || str_eq(name, "tableflip") || str_eq(name, "me") || str_eq(name, "mute")
        || str_eq(name, "unmute")
}

/// A request for a new custom command.
pub struct CreateCommandRequest {
    pub command_name: String,
    pub description: String,
    pub usage_hint: Option<String>,
    pub webhook_url: String,
    pub response_type: Option<String>,
}

/// A request to change a custom command; only the fields given change.
pub struct UpdateCommandRequest {
    pub description: Option<String>,
    pub usage_hint: Option<String>,
    pub webhook_url: Option<String>,
    pub response_type: Option<String>,
    pub enabled: Option<bool>,
}

/// Checks a request for a new custom command, and gives its name (without
/// leading slashes, lowercased) and response type.
pub fn validate_new_command(req: &CreateCommandRequest) -> (r: Result<(String, String), ApiError>)
    ensures
        match (r, create_spec(command_name_spec(req.command_name@), opt_view(req.response_type))) {
            (Ok((n, t)), Ok((sn, st))) => n@ == sn && t@ == st,
            (Err(e), Err(v)) => e@ == v,
            _ => false,
        },
{
    let normalized = normalize_command_name(req.command_name.as_str());
    let name = normalized.as_str();
    let rt = match &req.response_type {
        Some(t) => t.as_str(),
        None => "in_channel",
    };
    if is_builtin(name) {
        return Err(ApiError::BadRequest(concat2("Cannot override builtin command: /", name)));
    }
    if name.is_empty() || name.as_bytes().len() > 50 {
        return Err(bad_request("Command name must be 1-50 characters"));
    }
    if !(str_eq(rt, "ephemeral") || str_eq(rt, "in_channel")) {
        return Err(bad_request("response_type must be 'ephemeral' or 'in_channel'"));
    }
    Ok((String::from_str(name), String::from_str(rt)))
}

/// Checks that a user may change (`deleting` false) or delete a custom command.
pub open spec fn modify_spec(
    cmd_org: u128,
    user_org: u128,
    handler: Seq<char>,
    deleting: bool,
    response_type: Option<Seq<char>>,
) -> Result<(), ApiErrorView> {
    if cmd_org != user_org {
        Err(
            ApiErrorView::Authorization(
                if deleting {
                    "Cannot delete commands from another organization"@
                } else {
                    "Cannot modify commands from another organization"@
                },
            ),
        )
    } else if handler == "builtin"@ {
        Err(
            ApiErrorView::BadRequest(
                if deleting {
                    "Cannot delete builtin commands"@
                } else {
                    "Cannot modify builtin commands"@
                },
            ),
        )
    } else if !deleting && response_type is Some && !valid_response_type(response_type.unwrap()) {
        Err(ApiErrorView::BadRequest("response_type must be 'ephemeral' or 'in_channel'"@))
    } else {
        Ok(())
    }
}

/// Checks an update of a custom command: same organization, not a builtin,
/// and a valid response type if one is given.
pub fn check_command_update(cmd: &SlashCommand, user_org: u128, req: &UpdateCommandRequest) -> (r:
    Result<(), ApiError>)
    ensures
        match (r, modify_spec(
            cmd.org_id,
            user_org,
            cmd.handler_type@,
            false,
            opt_view(req.response_type),
        )) {
            (Ok(_), Ok(_)) => true,
            (Err(e), Err(v)) => e@ == v,
            _ => false,
        },
{
    if cmd.org_id != user_org {
        return Err(forbidden("Cannot modify commands from another organization"));
    }
    if str_eq(cmd.handler_type.as_str(), "builtin") {
        return Err(bad_request("Cannot modify builtin commands"));
    }
    match &req.response_type {
        Some(rt) => {
            if !(str_eq(rt.as_str(), "ephemeral") || str_eq(rt.as_str(), "in_channel")) {
                return Err(bad_request("response_type must be 'ephemeral' or 'in_channel'"));
            }
        },
        None => {},
    }
    Ok(())
}

/// Checks a deletion of a custom command: same organization and not a builtin.
pub fn check_command_delete(cmd: &SlashCommand, user_org: u128) -> (r: Result<(), ApiError>)
    ensures
        match (r, modify_spec(cmd.org_id, user_org, cmd.handler_type@, true, None)) {
            (Ok(_), Ok(_)) => true,
            (Err(e), Err(v)) => e@ == v,
            _ => false,
        },
{
    if cmd.org_id != user_org {
        return Err(forbidden("Cannot delete commands from another organization"));
    }
    if str_eq(cmd.handler_type.as_str(), "builtin") {
        return Err(bad_request("Cannot delete builtin commands"));
    }
    Ok(())
}

/// The list entry of a custom command.
pub open spec fn custom_info(c: SlashCommand) -> CommandInfoView {
    CommandInfoView {
        name: c.command_name@,
        description: c.description@,
        usage_hint: opt_view(c.usage_hint),
        handler_type: c.handler_type@,
        id: Some(c.id),
    }
}

/// The enabled commands among `custom`, as list entries, in order.
pub open spec fn enabled_infos(custom: Seq<SlashCommand>) -> Seq<CommandInfoView>
    decreases custom.len(),
{
    if custom.len() == 0 {
        seq![]
    } else {
        let rest = enabled_infos(custom.drop_last());
        if custom.last().enabled {
            rest.push(custom_info(custom.last()))
        } else {
            rest
        }
    }
}

fn copy_opt(o: &Option<String>) -> (r: Option<String>)
    ensures
        opt_view(r) == opt_view(*o),
{
    match o {
        Some(s) => Some(String::from_str(s.as_str())),
        None => None,
    }
}

/// The command list: the builtins, then the organization's enabled custom commands.
pub fn list_commands(custom: &Vec<SlashCommand>) -> (v: Vec<CommandInfo>)
    ensures
        v@.map_values(|c: CommandInfo| c@) == builtin_infos() + enabled_infos(custom@),
{
    let mut v = builtin_commands();
    let mut i: usize = 0;
    assert(custom@.take(0) =~= Seq::<SlashCommand>::empty());
    assert(builtin_infos() + enabled_infos(custom@.take(0)) =~= builtin_infos());
    while i < custom.len()
        invariant
            i <= custom@.len(),
            v@.map_values(|c: CommandInfo| c@) == builtin_infos() + enabled_infos(
                custom@.take(i as int),
            ),
        decreases custom.len() - i,
    {
        let c = &custom[i];
        assert(custom@.take(i + 1).drop_last() =~= custom@.take(i as int));
        assert(custom@.take(i + 1).last() == *c);
        if c.enabled {
            let info = CommandInfo {
                name: String::from_str(c.command_name.as_str()),
                description: String::from_str(c.description.as_str()),
                usage_hint: copy_opt(&c.usage_hint),
                handler_type: String::from_str(c.handler_type.as_str()),
                id: Some(c.id),
            };
            let ghost before = v@;
            v.push(info);
            assert(v@.map_values(|c: CommandInfo| c@) =~= before.map_values(|c: CommandInfo| c@).push(
                custom_info(*c),
            ));
        }
        i = i + 1;
    }
    assert(custom@.take(custom@.len() as int) =~= custom@);
    v
}

/// A builtin command can be neither replaced by a custom one nor changed or
/// deleted, and a disabled custom command is never run.
pub proof fn law_builtins_are_fixed(
    name: Seq<char>,
    response_type: Option<Seq<char>>,
    org: u128,
    user_org: u128,
    deleting: bool,
    handler_url: Option<Seq<char>>,
)
    ensures
        is_builtin_name(name) ==> create_spec(name, response_type) is Err,
        modify_spec(org, user_org, "builtin"@, deleting, response_type) is Err,
        custom_spec(name, Some((false, "webhook"@, handler_url))) is Err,
{
}


/// `/mute` always mutes and `/unmute` always unmutes, whatever text follows
/// them: the text never changes the direction.
pub proof fn law_mute_direction_ignores_text(text: Seq<char>, other: Seq<char>)
    ensures
        builtin_action("mute"@, text) == CommandActionView::SetMute(true),
        builtin_action("unmute"@, text) == CommandActionView::SetMute(false),
        builtin_action("mute"@, text) == builtin_action("mute"@, other),
        builtin_action("unmute"@, text) == builtin_action("unmute"@, other),
{
    reveal_strlit("mute");
    reveal_strlit("unmute");
    reveal_strlit("shrug");
    reveal_strlit("tableflip");
    reveal_strlit("me");
    assert("mute"@.len() != "shrug"@.len());
    assert("mute"@.len() != "tableflip"@.len());
    assert("mute"@.len() != "me"@.len());
    assert("unmute"@.len() != "shrug"@.len());
    assert("unmute"@.len() != "tableflip"@.len());
    assert("unmute"@.len() != "me"@.len());
    assert("unmute"@.len() != "mute"@.len());
}


/// `/shrug` and `/tableflip` post their text followed by a space and the face
/// (the face alone when there is no text), `/me` posts its text between
/// asterisks and answers with its usage when there is no text, and no other
/// name is a builtin.
pub proof fn law_builtin_messages(name: Seq<char>, text: Seq<char>)
    ensures
        builtin_action("shrug"@, text) == CommandActionView::Post(
            if text.len() == 0 {
                "¯\\_(ツ)_/¯"@
            } else {
                text + " ¯\\_(ツ)_/¯"@
            },
        ),
        builtin_action("tableflip"@, text) == CommandActionView::Post(
            if text.len() == 0 {
                "(╯°□°)╯︵ ┻━┻"@
            } else {
                text + " (╯°□°)╯︵ ┻━┻"@
            },
        ),
        text.len() > 0 ==> builtin_action("me"@, text) == CommandActionView::Post("*"@ + text + "*"@),
        text.len() == 0 ==> builtin_action("me"@, text) == CommandActionView::Reply(
            "Usage: /me <action>"@,
        ),
        !is_builtin_name(name) ==> builtin_action(name, text) == CommandActionView::Custom,
{
    reveal_strlit("shrug");
    reveal_strlit("tableflip");
    reveal_strlit("me");
    reveal_strlit(" ");
    reveal_strlit("¯\\_(ツ)_/¯");
    reveal_strlit(" ¯\\_(ツ)_/¯");
    reveal_strlit("(╯°□°)╯︵ ┻━┻");
    reveal_strlit(" (╯°□°)╯︵ ┻━┻");
    assert("shrug"@.len() != "tableflip"@.len());
    assert("me"@.len() != "shrug"@.len());
    assert("me"@.len() != "tableflip"@.len());
    assert(text + " "@ + "¯\\_(ツ)_/¯"@ =~= text + " ¯\\_(ツ)_/¯"@);
    assert(text + " "@ + "(╯°□°)╯︵ ┻━┻"@ =~= text + " (╯°□°)╯︵ ┻━┻"@);
}

} // verus!
