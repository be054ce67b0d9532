//! The message views the API answers with: a message together with its author,
//! its reactions, its reply count, its first reply and its attachments, put
//! together from the rows read for a page, a thread or a conversation.
//!
//! Rows carry their times as the RFC 3339 text of the stored time.
use vstd::prelude::*;

verus! {

/// A copy of an optional text.
fn copy_text(o: &Option<String>) -> (r: Option<String>)
    ensures
        r == *o,
{
    match o {
        Some(s) => Some(s.clone()),
        None => None,
    }
}

/// A stored message.
#[derive(Debug)]
pub struct MessageRow {
    pub id: u128,
    pub channel_id: Option<u128>,
    pub dm_id: Option<u128>,
    pub user_id: u128,
    pub content: String,
    pub parent_message_id: Option<u128>,
    pub created_at: String,
    pub edited_at: Option<String>,
}

impl Clone for MessageRow {
    fn clone(&self) -> (r: Self)
        ensures
            r == *self,
    {
        MessageRow {
            id: self.id,
            channel_id: self.channel_id,
            dm_id: self.dm_id,
            user_id: self.user_id,
            content: self.content.clone(),
            parent_message_id: self.parent_message_id,
            created_at: self.created_at.clone(),
            edited_at: copy_text(&self.edited_at),
        }
    }
}

/// The author of a message, as shown with it.
#[derive(Debug)]
pub struct UserResponse {
    pub id: u128,
    pub email: String,
    pub display_name: String,
    pub org_id: u128,
    pub tv_user_id: u128,
    pub status: String,
    pub created_at: String,
    pub updated_at: String,
}

impl Clone for UserResponse {
    fn clone(&self) -> (r: Self)
        ensures
            r == *self,
    {
        UserResponse {
            id: self.id,
            email: self.email.clone(),
            display_name: self.display_name.clone(),
            org_id: self.org_id,
            tv_user_id: self.tv_user_id,
            status: self.status.clone(),
            created_at: self.created_at.clone(),
            updated_at: self.updated_at.clone(),
        }
    }
}

/// A reaction to a message.
#[derive(Debug)]
pub struct ReactionResponse {
    pub id: u128,
    pub message_id: u128,
    pub user_id: u128,
    pub emoji: String,
    pub created_at: String,
}

impl Clone for ReactionResponse {
    fn clone(&self) -> (r: Self)
        ensures
            r == *self,
    {
        ReactionResponse {
            id: self.id,
            message_id: self.message_id,
            user_id: self.user_id,
            emoji: self.emoji.clone(),
            created_at: self.created_at.clone(),
        }
    }
}

/// A file attached to a message, as shown with it.
#[derive(Debug)]
pub struct AttachmentResponse {
    pub id: u128,
    pub file_name: String,
    pub file_url: String,
    pub file_type: Option<String>,
    pub file_size: Option<i64>,
    pub created_at: String,
}

impl Clone for AttachmentResponse {
    fn clone(&self) -> (r: Self)
        ensures
            r == *self,
    {
        AttachmentResponse {
            id: self.id,
            file_name: self.file_name.clone(),
            file_url: self.file_url.clone(),
            file_type: copy_text(&self.file_type),
            file_size: self.file_size,
            created_at: self.created_at.clone(),
        }
    }
}

/// A stored attachment: the message it belongs to, and how it is shown.
#[derive(Debug)]
pub struct AttachmentRow {
    pub message_id: u128,
    pub attachment: AttachmentResponse,
}

/// The last user row with the given id (later rows win, as when the rows are
/// collected into a map by id).
pub open spec fn user_with(users: Seq<UserResponse>, id: u128) -> Option<UserResponse>
    decreases users.len(),
{
    if users.len() == 0 {
        None
    } else if users.last().id == id {
        Some(users.last())
    } else {
        user_with(users.drop_last(), id)
    }
}

/// The user row with the given id, if any.
pub fn find_user(users: &Vec<UserResponse>, id: u128) -> (r: Option<UserResponse>)
    ensures
        r == user_with(users@, id),
{
    let mut found: Option<usize> = None;
    let mut j: usize = 0;
    while j < users.len()
        invariant
            j <= users@.len(),
            match found {
                Some(k) => k < j && user_with(users@.take(j as int), id) == Some(users@[k as int]),
                None => user_with(users@.take(j as int), id) is None,
            },
        decreases users.len() - j,
    {
        proof {
            assert(users@.take(j + 1).drop_last() == users@.take(j as int));
        }
        if users[j].id == id {
            found = Some(j);
        }
        j = j + 1;
    }
    proof {
        assert(users@.take(users@.len() as int) == users@);
    }
    match found {
        Some(k) => Some(users[k].clone()),
        None => None,
    }
}


/// The reactions to the given message, in row order.
pub open spec fn reactions_for(rows: Seq<ReactionResponse>, message_id: u128) -> Seq<ReactionResponse>
    decreases rows.len(),
{
    if rows.len() == 0 {
        seq![]
    } else if rows.last().message_id == message_id {
        reactions_for(rows.drop_last(), message_id).push(rows.last())
    } else {
        reactions_for(rows.drop_last(), message_id)
    }
}

/// The reactions to the given message, in row order.
pub fn collect_reactions(rows: &Vec<ReactionResponse>, message_id: u128) -> (r: Vec<ReactionResponse>)
    ensures
        r@ == reactions_for(rows@, message_id),
{
    let mut out: Vec<ReactionResponse> = Vec::new();
    let mut j: usize = 0;
    while j < rows.len()
        invariant
            j <= rows@.len(),
            out@ == reactions_for(rows@.take(j as int), message_id),
        decreases rows.len() - j,
    {
        proof {
            assert(rows@.take(j + 1).drop_last() == rows@.take(j as int));
        }
        if rows[j].message_id == message_id {
            out.push(rows[j].clone());
        }
        j = j + 1;
    }
    proof {
        assert(rows@.take(rows@.len() as int) == rows@);
    }
    out
}

/// The attachments of the given message, in row order.
pub open spec fn attachments_for(rows: Seq<AttachmentRow>, message_id: u128) -> Seq<AttachmentResponse>
    decreases rows.len(),
{
    if rows.len() == 0 {
        seq![]
    } else if rows.last().message_id == message_id {
        attachments_for(rows.drop_last(), message_id).push(rows.last().attachment)
    } else {
        attachments_for(rows.drop_last(), message_id)
    }
}

/// The attachments of the given message, in row order.
pub fn collect_attachments(rows: &Vec<AttachmentRow>, message_id: u128) -> (r: Vec<AttachmentResponse>)
    ensures
        r@ == attachments_for(rows@, message_id),
{
    let mut out: Vec<AttachmentResponse> = Vec::new();
    let mut j: usize = 0;
    while j < rows.len()
        invariant
            j <= rows@.len(),
            out@ == attachments_for(rows@.take(j as int), message_id),
        decreases rows.len() - j,
    {
        proof {
            assert(rows@.take(j + 1).drop_last() == rows@.take(j as int));
        }
        if rows[j].message_id == message_id {
            out.push(rows[j].attachment.clone());
        }
        j = j + 1;
    }
    proof {
        assert(rows@.take(rows@.len() as int) == rows@);
    }
    out
}

/// The reply count recorded for the given message (later entries win).
pub open spec fn count_for(counts: Seq<(u128, i64)>, message_id: u128) -> Option<i64>
    decreases counts.len(),
{
    if counts.len() == 0 {
        None
    } else if counts.last().0 == message_id {
        Some(counts.last().1)
    } else {
        count_for(counts.drop_last(), message_id)
    }
}

/// The reply count recorded for the given message, if any.
pub fn find_count(counts: &Vec<(u128, i64)>, message_id: u128) -> (r: Option<i64>)
    ensures
        r == count_for(counts@, message_id),
{
    let mut found: Option<i64> = None;
    let mut j: usize = 0;
    while j < counts.len()
        invariant
            j <= counts@.len(),
            found == count_for(counts@.take(j as int), message_id),
        decreases counts.len() - j,
    {
        proof {
            assert(counts@.take(j + 1).drop_last() == counts@.take(j as int));
        }
        if counts[j].0 == message_id {
            found = Some(counts[j].1);
        }
        j = j + 1;
    }
    proof {
        assert(counts@.take(counts@.len() as int) == counts@);
    }
    found
}

/// The first reply recorded for the given message (later entries win).
pub open spec fn first_reply_for(firsts: Seq<(u128, MessageRow)>, message_id: u128) -> Option<MessageRow>
    decreases firsts.len(),
{
    if firsts.len() == 0 {
        None
    } else if firsts.last().0 == message_id {
        Some(firsts.last().1)
    } else {
        first_reply_for(firsts.drop_last(), message_id)
    }
}

/// The first reply recorded for the given message, if any.
pub fn find_first_reply(firsts: &Vec<(u128, MessageRow)>, message_id: u128) -> (r: Option<MessageRow>)
    ensures
        r == first_reply_for(firsts@, message_id),
{
    let mut found: Option<usize> = None;
    let mut j: usize = 0;
    while j < firsts.len()
        invariant
            j <= firsts@.len(),
            match found {
                Some(k) => k < j && first_reply_for(firsts@.take(j as int), message_id) == Some(
                    firsts@[k as int].1,
                ),
                None => first_reply_for(firsts@.take(j as int), message_id) is None,
            },
        decreases firsts.len() - j,
    {
        proof {
            assert(firsts@.take(j + 1).drop_last() == firsts@.take(j as int));
        }
        if firsts[j].0 == message_id {
            found = Some(j);
        }
        j = j + 1;
    }
    proof {
        assert(firsts@.take(firsts@.len() as int) == firsts@);
    }
    match found {
        Some(k) => Some(firsts[k].1.clone()),
        None => None,
    }
}


/// A message as the API shows it.
#[derive(Debug)]
pub struct MessageResponse {
    pub id: u128,
    pub channel_id: Option<u128>,
    pub dm_id: Option<u128>,
    pub user_id: u128,
    pub content: String,
    pub parent_message_id: Option<u128>,
    pub created_at: String,
    pub edited_at: Option<String>,
    pub user: Option<UserResponse>,
    pub reactions: Vec<ReactionResponse>,
    pub reply_count: i64,
    pub first_reply: Option<Box<MessageResponse>>,
    pub attachments: Vec<AttachmentResponse>,
}

/// The response shows the stored fields of the message.
pub open spec fn shows(r: MessageResponse, m: MessageRow) -> bool {
    &&& r.id == m.id
    &&& r.channel_id == m.channel_id
    &&& r.dm_id == m.dm_id
    &&& r.user_id == m.user_id
    &&& r.content == m.content
    &&& r.parent_message_id == m.parent_message_id
    &&& r.created_at == m.created_at
    &&& r.edited_at == m.edited_at
}

/// The response shows the message alone: no author, reactions, replies or attachments.
pub open spec fn shows_bare(r: MessageResponse, m: MessageRow) -> bool {
    &&& shows(r, m)
    &&& r.user is None
    &&& r.reactions@ == Seq::<ReactionResponse>::empty()
    &&& r.reply_count == 0
    &&& r.first_reply is None
    &&& r.attachments@ == Seq::<AttachmentResponse>::empty()
}

impl MessageResponse {
    /// The stored message, shown alone.
    pub fn from_row(m: MessageRow) -> (r: Self)
        ensures
            shows_bare(r, m),
    {
        MessageResponse {
            id: m.id,
            channel_id: m.channel_id,
            dm_id: m.dm_id,
            user_id: m.user_id,
            content: m.content,
            parent_message_id: m.parent_message_id,
            created_at: m.created_at,
            edited_at: m.edited_at,
            user: None,
            reactions: Vec::new(),
            reply_count: 0,
            first_reply: None,
            attachments: Vec::new(),
        }
    }

    /// The same message, shown with its author.
    pub fn with_user(self, user: UserResponse) -> (r: Self)
        ensures
            r == (MessageResponse { user: Some(user), ..self }),
    {
        let mut r = self;
        r.user = Some(user);
        r
    }

    /// The same message, shown with these reactions.
    pub fn with_reactions(self, reactions: Vec<ReactionResponse>) -> (r: Self)
        ensures
            r == (MessageResponse { reactions: reactions, ..self }),
    {
        let mut r = self;
        r.reactions = reactions;
        r
    }

    /// The same message, shown with this reply count.
    pub fn with_reply_count(self, reply_count: i64) -> (r: Self)
        ensures
            r == (MessageResponse { reply_count: reply_count, ..self }),
    {
        let mut r = self;
        r.reply_count = reply_count;
        r
    }

    /// The same message, shown with its first reply.
    pub fn with_first_reply(self, first_reply: MessageResponse) -> (r: Self)
        ensures
            r == (MessageResponse { first_reply: Some(Box::new(first_reply)), ..self }),
    {
        let mut r = self;
        r.first_reply = Some(Box::new(first_reply));
        r
    }

    /// The same message, shown with these attachments.
    pub fn with_attachments(self, attachments: Vec<AttachmentResponse>) -> (r: Self)
        ensures
            r == (MessageResponse { attachments: attachments, ..self }),
    {
        let mut r = self;
        r.attachments = attachments;
        r
    }
}

/// What was read alongside a set of messages: the authors, the reactions, the
/// reply counts, the first replies (by the message they answer) with their
/// authors, and the attachments. Views that show no first replies or no
/// attachments leave those rows empty.
#[derive(Debug)]
pub struct PageRows {
    pub users: Vec<UserResponse>,
    pub reactions: Vec<ReactionResponse>,
    pub reply_counts: Vec<(u128, i64)>,
    pub first_replies: Vec<(u128, MessageRow)>,
    pub first_reply_users: Vec<UserResponse>,
    pub attachments: Vec<AttachmentRow>,
}

/// A first reply is shown when the message has a recorded reply count above
/// zero and a recorded first reply.
pub open spec fn shows_first_reply(rows: PageRows, message_id: u128) -> bool {
    &&& count_for(rows.reply_counts@, message_id) matches Some(c) && c > 0
    &&& first_reply_for(rows.first_replies@, message_id) is Some
}

/// The message shown with everything read for it: its author if found, its
/// reactions and attachments in row order, its recorded reply count (0 when
/// none is recorded), and its first reply, shown with that reply's author
/// alone, when `shows_first_reply` holds.
pub open spec fn shows_enriched(r: MessageResponse, m: MessageRow, rows: PageRows) -> bool {
    &&& shows(r, m)
    &&& r.user == user_with(rows.users@, m.user_id)
    &&& r.reactions@ == reactions_for(rows.reactions@, m.id)
    &&& r.attachments@ == attachments_for(rows.attachments@, m.id)
    &&& r.reply_count == (match count_for(rows.reply_counts@, m.id) {
        Some(c) => c,
        None => 0,
    })
    &&& if shows_first_reply(rows, m.id) {
        r.first_reply matches Some(b) && {
            let f = first_reply_for(rows.first_replies@, m.id).unwrap();
            &&& shows(*b, f)
            &&& b.user == user_with(rows.first_reply_users@, f.user_id)
            &&& b.reactions@ == Seq::<ReactionResponse>::empty()
            &&& b.reply_count == 0
            &&& b.first_reply is None
            &&& b.attachments@ == Seq::<AttachmentResponse>::empty()
        }
    } else {
        r.first_reply is None
    }
}

/// A message shown with everything read for it.
pub fn enrich_message(m: &MessageRow, rows: &PageRows) -> (r: MessageResponse)
    ensures
        shows_enriched(r, *m, *rows),
{
    let mut response = MessageResponse::from_row(m.clone());
    if let Some(user) = find_user(&rows.users, m.user_id) {
        response = response.with_user(user);
    }
    response = response.with_reactions(collect_reactions(&rows.reactions, m.id));
    let count = find_count(&rows.reply_counts, m.id);
    if let Some(c) = count {
        response = response.with_reply_count(c);
        if c > 0 {
            if let Some(first) = find_first_reply(&rows.first_replies, m.id) {
                let author = find_user(&rows.first_reply_users, first.user_id);
                let mut reply = MessageResponse::from_row(first);
                if let Some(u) = author {
                    reply = reply.with_user(u);
                }
                response = response.with_first_reply(reply);
            }
        }
    }
    response = response.with_attachments(collect_attachments(&rows.attachments, m.id));
    response
}

/// A page of messages as the API answers it.
#[derive(Debug)]
pub struct PaginatedMessagesResponse {
    pub messages: Vec<MessageResponse>,
    pub has_more: bool,
    pub next_cursor: Option<String>,
}

/// A page of messages, each shown with everything read for it, in page order.
pub fn page_response(
    messages: &Vec<MessageRow>,
    has_more: bool,
    next_cursor: Option<String>,
    rows: &PageRows,
) -> (r: PaginatedMessagesResponse)
    ensures
        r.messages@.len() == messages@.len(),
        forall|i: int|
            0 <= i < messages@.len() ==> shows_enriched(
                #[trigger] r.messages@[i],
                messages@[i],
                *rows,
            ),
        r.has_more == has_more,
        r.next_cursor == next_cursor,
{
    let mut out: Vec<MessageResponse> = Vec::new();
    let mut i: usize = 0;
    while i < messages.len()
        invariant
            i <= messages@.len(),
            out@.len() == i,
            forall|k: int| 0 <= k < i ==> shows_enriched(#[trigger] out@[k], messages@[k], *rows),
        decreases messages.len() - i,
    {
        out.push(enrich_message(&messages[i], rows));
        i = i + 1;
    }
    PaginatedMessagesResponse { messages: out, has_more, next_cursor }
}


/// A message of a thread shown with its author if found, its reactions in row
/// order and its recorded reply count (0 when none is recorded); threads show
/// no first replies and no attachments.
pub open spec fn shows_in_thread(
    r: MessageResponse,
    m: MessageRow,
    users: Seq<UserResponse>,
    reactions: Seq<ReactionResponse>,
    counts: Seq<(u128, i64)>,
) -> bool {
    &&& shows(r, m)
    &&& r.user == user_with(users, m.user_id)
    &&& r.reactions@ == reactions_for(reactions, m.id)
    &&& r.reply_count == (match count_for(counts, m.id) {
        Some(c) => c,
        None => 0,
    })
    &&& r.first_reply is None
    &&& r.attachments@ == Seq::<AttachmentResponse>::empty()
}

/// A message of a thread, shown with its author, reactions and reply count.
pub fn thread_message(
    m: &MessageRow,
    users: &Vec<UserResponse>,
    reactions: &Vec<ReactionResponse>,
    counts: &Vec<(u128, i64)>,
) -> (r: MessageResponse)
    ensures
        shows_in_thread(r, *m, users@, reactions@, counts@),
{
    let mut response = MessageResponse::from_row(m.clone());
    if let Some(user) = find_user(users, m.user_id) {
        response = response.with_user(user);
    }
    response = response.with_reactions(collect_reactions(reactions, m.id));
    if let Some(c) = find_count(counts, m.id) {
        response = response.with_reply_count(c);
    }
    response
}

/// A thread as the API answers it: the message answered, then its replies.
#[derive(Debug)]
pub struct ThreadResponse {
    pub parent: MessageResponse,
    pub replies: Vec<MessageResponse>,
}

/// A thread: the message answered and its replies in the order given, each
/// shown with its author, reactions and reply count.
pub fn thread_response(
    parent: &MessageRow,
    replies: &Vec<MessageRow>,
    users: &Vec<UserResponse>,
    reactions: &Vec<ReactionResponse>,
    counts: &Vec<(u128, i64)>,
) -> (r: ThreadResponse)
    ensures
        shows_in_thread(r.parent, *parent, users@, reactions@, counts@),
        r.replies@.len() == replies@.len(),
        forall|i: int|
            0 <= i < replies@.len() ==> shows_in_thread(
                #[trigger] r.replies@[i],
                replies@[i],
                users@,
                reactions@,
                counts@,
            ),
{
    let head = thread_message(parent, users, reactions, counts);
    let mut out: Vec<MessageResponse> = Vec::new();
    let mut i: usize = 0;
    while i < replies.len()
        invariant
            i <= replies@.len(),
            out@.len() == i,
            forall|k: int|
                0 <= k < i ==> shows_in_thread(
                    #[trigger] out@[k],
                    replies@[k],
                    users@,
                    reactions@,
                    counts@,
                ),
        decreases replies.len() - i,
    {
        out.push(thread_message(&replies[i], users, reactions, counts));
        i = i + 1;
    }
    ThreadResponse { parent: head, replies: out }
}


/// Whether an attachment row belongs to the given message.
pub open spec fn attachment_of(message_id: u128) -> spec_fn(AttachmentRow) -> bool {
    |a: AttachmentRow| a.message_id == message_id
}

/// How an attachment row is shown.
pub open spec fn shown_attachment() -> spec_fn(AttachmentRow) -> AttachmentResponse {
    |a: AttachmentRow| a.attachment
}

/// Whether a reaction belongs to the given message.
pub open spec fn reaction_of(message_id: u128) -> spec_fn(ReactionResponse) -> bool {
    |r: ReactionResponse| r.message_id == message_id
}

/// The attachment rows of a message are all kept, once each, in row order.
proof fn lemma_attachments_are_the_rows_of_the_message(rows: Seq<AttachmentRow>, message_id: u128)
    ensures
        attachments_for(rows, message_id) == rows.filter(attachment_of(message_id)).map_values(
            shown_attachment(),
        ),
    decreases rows.len(),
{
    reveal(Seq::filter);
    if rows.len() == 0 {
        assert(rows.filter(attachment_of(message_id)).map_values(shown_attachment()) =~= seq![]);
    } else {
        lemma_attachments_are_the_rows_of_the_message(rows.drop_last(), message_id);
        let sub = rows.drop_last().filter(attachment_of(message_id));
        if rows.last().message_id == message_id {
            assert(sub.push(rows.last()).map_values(shown_attachment()) =~= sub.map_values(
                shown_attachment(),
            ).push(rows.last().attachment));
        }
    }
}

/// The reaction rows of a message are all kept, once each, in row order.
proof fn lemma_reactions_are_the_rows_of_the_message(rows: Seq<ReactionResponse>, message_id: u128)
    ensures
        reactions_for(rows, message_id) == rows.filter(reaction_of(message_id)),
    decreases rows.len(),
{
    reveal(Seq::filter);
    if rows.len() == 0 {
        assert(rows.filter(reaction_of(message_id)) =~= seq![]);
    } else {
        lemma_reactions_are_the_rows_of_the_message(rows.drop_last(), message_id);
    }
}

/// A message is shown with every attachment row and every reaction row that
/// belongs to it, each once and in row order, and with nothing that belongs to
/// another message; with no such rows it shows none.
pub proof fn law_message_shows_all_its_rows(r: MessageResponse, m: MessageRow, rows: PageRows)
    requires
        shows_enriched(r, m, rows),
    ensures
        r.attachments@ == rows.attachments@.filter(attachment_of(m.id)).map_values(
            shown_attachment(),
        ),
        r.attachments@.len() == rows.attachments@.filter(attachment_of(m.id)).len(),
        r.reactions@ == rows.reactions@.filter(reaction_of(m.id)),
        forall|i: int| 0 <= i < r.reactions@.len() ==> (#[trigger] r.reactions@[i]).message_id == m.id,
{
    lemma_attachments_are_the_rows_of_the_message(rows.attachments@, m.id);
    lemma_reactions_are_the_rows_of_the_message(rows.reactions@, m.id);
    assert forall|i: int| 0 <= i < r.reactions@.len() implies (#[trigger] r.reactions@[i]).message_id
        == m.id by {
        rows.reactions@.lemma_filter_pred(reaction_of(m.id), i);
    }
}


/// The user found for an id has that id and is one of the rows, and some row
/// is found whenever one has the id.
proof fn lemma_user_with_finds(users: Seq<UserResponse>, id: u128)
    ensures
        user_with(users, id) matches Some(u) ==> u.id == id && users.contains(u),
        (exists|k: int| 0 <= k < users.len() && (#[trigger] users[k]).id == id) ==> user_with(
            users,
            id,
        ) is Some,
    decreases users.len(),
{
    if users.len() > 0 {
        lemma_user_with_finds(users.drop_last(), id);
        if let Some(u) = user_with(users, id) {
            if users.last().id != id {
                assert(users.drop_last().contains(u));
                let k = choose|k: int| 0 <= k < users.drop_last().len() && users.drop_last()[k] == u;
                assert(users[k] == u);
            } else {
                assert(users[users.len() - 1] == u);
            }
        }
        if exists|k: int| 0 <= k < users.len() && (#[trigger] users[k]).id == id {
            let k = choose|k: int| 0 <= k < users.len() && (#[trigger] users[k]).id == id;
            if k < users.len() - 1 {
                assert(users.drop_last()[k].id == id);
            }
        }
    }
}

/// A message is shown with its own author: the author shown is a user row
/// whose id is the message's author, and one is shown whenever such a row was
/// read. A first reply, when shown, is shown with its own author likewise.
pub proof fn law_message_shows_its_author(r: MessageResponse, m: MessageRow, rows: PageRows)
    requires
        shows_enriched(r, m, rows),
    ensures
        r.user matches Some(u) ==> u.id == m.user_id && rows.users@.contains(u),
        (exists|k: int| 0 <= k < rows.users@.len() && (#[trigger] rows.users@[k]).id == m.user_id)
            ==> r.user is Some,
        r.first_reply matches Some(b) ==> (b.user matches Some(u) ==> u.id == b.user_id
            && rows.first_reply_users@.contains(u)),
        r.user_id == m.user_id && r.id == m.id,
{
    lemma_user_with_finds(rows.users@, m.user_id);
    if let Some(b) = r.first_reply {
        lemma_user_with_finds(rows.first_reply_users@, b.user_id);
    }
}

} // verus!
