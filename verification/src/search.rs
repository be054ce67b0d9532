//! Message search: the query's filter syntax, the scope of a search, the SQL
//! that a search runs, and the cache key of its results.
use vstd::prelude::*;
use std::collections::hash_map::DefaultHasher;
use std::hash::{Hash, Hasher};
use crate::errors::{ApiError, ApiErrorView, bad_request};
use crate::patterns::{Capture, CaptureView, first_capture, regex_capture, opt_view};
use crate::text::{
    collapse_whitespace, collapse_ws_spec, decimal, decimal_string, is_blank, is_blank_spec,
    join_spec, join_strings, split_words, str_eq, words_spec,
};

verus! {

/// The scope searched when none is given.
pub fn default_scope() -> (s: String)
    ensures
        s@ == "all"@,
{
    String::from_str("all")
}

/// The number of results asked for when none is given.
pub fn default_limit() -> (n: i64)
    ensures
        n == 50,
{
    50
}

/// The time of day written as an RFC 3339 UTC date-time on the date that
/// `text` holds in `format`; `None` when `text` is not such a date.
pub uninterp spec fn date_bound_rfc3339(
    text: Seq<char>,
    format: Seq<char>,
    hour: u32,
    min: u32,
    sec: u32,
) -> Option<Seq<char>>;

/// `NaiveDate::parse_from_str(text, format)` of chrono, then that date at
/// `hour:min:sec` in UTC, written by `to_rfc3339`. The claim is that the result
/// equals `date_bound_rfc3339` of the same arguments.
#[verifier::external_body]
pub(crate) fn parse_date_bound(text: &str, format: &str, hour: u32, min: u32, sec: u32) -> (r: Option<
    String,
>)
    requires
        hour < 24,
        min < 60,
        sec < 60,
    ensures
        opt_view(r) == date_bound_rfc3339(text@, format@, hour, min, sec),
{
    let date = chrono::NaiveDate::parse_from_str(text, format).ok()?;
    let at = date.and_hms_opt(hour, min, sec).unwrap();
    Some(at.and_local_timezone(chrono::Utc).single().unwrap().to_rfc3339())
}

/// The filter `from:@username` (or `from:username`).
pub open spec fn from_pattern() -> Seq<char> {
    "from:@?(\\w+)"@
}

/// The filter `in:#channel` (or `in:channel`).
pub open spec fn in_pattern() -> Seq<char> {
    "in:#?(\\w+)"@
}

/// The filter `before:YYYY-MM-DD`.
pub open spec fn before_pattern() -> Seq<char> {
    "before:(\\d{4}-\\d{2}-\\d{2})"@
}

/// The filter `after:YYYY-MM-DD`.
pub open spec fn after_pattern() -> Seq<char> {
    "after:(\\d{4}-\\d{2}-\\d{2})"@
}

/// The date format of the date filters.
pub open spec fn date_format() -> Seq<char> {
    "%Y-%m-%d"@
}

/// Filters parsed out of a search query.
#[derive(Debug)]
pub struct SearchFilters {
    /// Plain text query after filters are extracted
    pub text_query: String,
    /// Filter by username (from:@username)
    pub from_user: Option<String>,
    /// Filter by channel name (in:#channel)
    pub in_channel: Option<String>,
    /// Messages before this time (end of the day of before:YYYY-MM-DD), as RFC 3339
    pub before_date: Option<String>,
    /// Messages after this time (start of the day of after:YYYY-MM-DD), as RFC 3339
    pub after_date: Option<String>,
}

/// The mathematical model of [`SearchFilters`].
pub struct SearchFiltersView {
    pub text_query: Seq<char>,
    pub from_user: Option<Seq<char>>,
    pub in_channel: Option<Seq<char>>,
    pub before_date: Option<Seq<char>>,
    pub after_date: Option<Seq<char>>,
}

impl View for SearchFilters {
    type V = SearchFiltersView;

    open spec fn view(&self) -> SearchFiltersView {
        SearchFiltersView {
            text_query: self.text_query@,
            from_user: opt_view(self.from_user),
            in_channel: opt_view(self.in_channel),
            before_date: opt_view(self.before_date),
            after_date: opt_view(self.after_date),
        }
    }
}

/// The pattern occurs in the text.
pub open spec fn found(c: CaptureView) -> bool {
    c is Found
}

/// The first group of a match, if there is a match.
pub open spec fn group_of(c: CaptureView) -> Option<Seq<char>> {
    match c {
        CaptureView::Found { group, .. } => group,
        _ => None,
    }
}

/// `Regex::replace(text, "")`: the text without the first match of the pattern.
pub open spec fn remove_first(pattern: Seq<char>, text: Seq<char>) -> Seq<char> {
    match regex_capture(pattern, text) {
        CaptureView::Found { before, after, .. } => before + after,
        _ => text,
    }
}

/// The date bound of a date filter's match: its date at the given time, if it is a date.
pub open spec fn date_of(c: CaptureView, hour: u32, min: u32, sec: u32) -> Option<Seq<char>> {
    match c {
        CaptureView::Found { group: Some(g), .. } => date_bound_rfc3339(
            g,
            date_format(),
            hour,
            min,
            sec,
        ),
        _ => None,
    }
}

/// The filters of a query. Each filter is looked for in the query as given;
/// when present, its value is taken from that match and the filter's first
/// occurrence is cut from the text, which is finally reduced to its words
/// separated by single spaces. A date filter whose value is not a valid date
/// is cut from the text but sets no bound.
pub open spec fn parse_spec(q: Seq<char>) -> SearchFiltersView {
    let cf = regex_capture(from_pattern(), q);
    let t1 = if found(cf) {
        remove_first(from_pattern(), q)
    } else {
        q
    };
    let ci = regex_capture(in_pattern(), q);
    let t2 = if found(ci) {
        remove_first(in_pattern(), t1)
    } else {
        t1
    };
    let cb = regex_capture(before_pattern(), q);
    let t3 = if found(cb) {
        remove_first(before_pattern(), t2)
    } else {
        t2
    };
    let ca = regex_capture(after_pattern(), q);
    let t4 = if found(ca) {
        remove_first(after_pattern(), t3)
    } else {
        t3
    };
    SearchFiltersView {
        text_query: collapse_ws_spec(t4),
        from_user: group_of(cf),
        in_channel: group_of(ci),
        before_date: date_of(cb, 23, 59, 59),
        after_date: date_of(ca, 0, 0, 0),
    }
}

/// The text without the first match of `pattern`.
fn cut_first(pattern: &str, text: String) -> (t: String)
    ensures
        t@ == remove_first(pattern@, text@),
{
    match first_capture(pattern, text.as_str()) {
        Capture::Found { before, after, .. } => before.concat(after.as_str()),
        _ => text,
    }
}

/// The group of a capture, moved out.
fn group_string(c: Capture) -> (g: Option<String>)
    ensures
        opt_view(g) == group_of(c@),
{
    match c {
        Capture::Found { group, .. } => group,
        _ => None,
    }
}

fn date_bound(c: &Capture, hour: u32, min: u32, sec: u32) -> (d: Option<String>)
    requires
        hour < 24,
        min < 60,
        sec < 60,
    ensures
        opt_view(d) == date_of(c@, hour, min, sec),
{
    match c {
        Capture::Found { group: Some(g), .. } => parse_date_bound(
            g.as_str(),
            "%Y-%m-%d",
            hour,
            min,
            sec,
        ),
        _ => None,
    }
}

impl SearchFilters {
    /// Parses the filters `from:@user`, `in:#channel`, `before:YYYY-MM-DD` and
    /// `after:YYYY-MM-DD` out of a search query; what remains is the text query.
    pub fn parse(query: &str) -> (f: Self)
        ensures
            f@ == parse_spec(query@),
    {
        let mut text = String::from_str(query);
        let cf = first_capture("from:@?(\\w+)", query);
        if matches!(cf, Capture::Found { .. }) {
            text = cut_first("from:@?(\\w+)", text);
        }
        let from_user = group_string(cf);
        let ci = first_capture("in:#?(\\w+)", query);
        if matches!(ci, Capture::Found { .. }) {
            text = cut_first("in:#?(\\w+)", text);
        }
        let in_channel = group_string(ci);
        let cb = first_capture("before:(\\d{4}-\\d{2}-\\d{2})", query);
        let before_date = date_bound(&cb, 23, 59, 59);
        if matches!(cb, Capture::Found { .. }) {
            text = cut_first("before:(\\d{4}-\\d{2}-\\d{2})", text);
        }
        let ca = first_capture("after:(\\d{4}-\\d{2}-\\d{2})", query);
        let after_date = date_bound(&ca, 0, 0, 0);
        if matches!(ca, Capture::Found { .. }) {
            text = cut_first("after:(\\d{4}-\\d{2}-\\d{2})", text);
        }
        let text_query = collapse_whitespace(text.as_str());
        SearchFilters { text_query, from_user, in_channel, before_date, after_date }
    }
}

/// The full-text search expression of a text query: each word as a prefix
/// match (`word:*`), all joined with ` & `.
pub open spec fn tsquery_spec(text: Seq<char>) -> Seq<char> {
    join_spec(words_spec(text).map_values(|w: Seq<char>| w + ":*"@), " & "@)
}

/// The full-text search expression of a text query.
pub fn to_tsquery_text(text: &str) -> (q: String)
    ensures
        q@ == tsquery_spec(text@),
{
    let words = split_words(text);
    let mut parts: Vec<String> = Vec::new();
    let mut i: usize = 0;
    while i < words.len()
        invariant
            i <= words@.len(),
            parts@.len() == i,
            forall|k: int| 0 <= k < i ==> (#[trigger] parts@[k])@ == words@[k]@ + ":*"@,
        decreases words.len() - i,
    {
        parts.push(String::from_str(words[i].as_str()).concat(":*"));
        i = i + 1;
    }
    let ghost pv = parts@.map_values(|w: String| w@);
    let ghost wv = words_spec(text@).map_values(|w: Seq<char>| w + ":*"@);
    let ghost ww = words@.map_values(|w: String| w@);
    assert(ww == words_spec(text@));
    assert forall|k: int| 0 <= k < pv.len() implies #[trigger] pv[k] == wv[k] by {
        assert(ww[k] == words@[k]@);
    }
    assert(pv =~= wv);
    join_strings(&parts, " & ")
}

/// Where a search looks.
#[derive(Debug, Clone, Copy, PartialEq, Eq)]
pub enum SearchScope {
    /// One channel.
    Channel(u128),
    /// One DM.
    Dm(u128),
    /// Every channel and DM of the organization.
    All,
}

/// The error of a blank search query.
pub open spec fn empty_query_error() -> ApiErrorView {
    ApiErrorView::BadRequest("Search query cannot be empty"@)
}

/// Refuses a query that holds only whitespace.
pub fn check_search_query(q: &str) -> (r: Result<(), ApiError>)
    ensures
        r is Ok <==> !is_blank_spec(q@),
        r matches Err(e) ==> e@ == empty_query_error(),
{
    if is_blank(q) {
        return Err(bad_request("Search query cannot be empty"));
    }
    Ok(())
}

/// The number of results fetched: the limit asked for, capped at 100.
pub fn search_limit(limit: i64) -> (n: i64)
    ensures
        n == (if limit < 100 {
            limit
        } else {
            100
        }),
{
    if limit < 100 {
        limit
    } else {
        100
    }
}

/// The scope named by a request, or why the request is refused.
pub open spec fn scope_spec(scope: Seq<char>, channel_id: Option<u128>, dm_id: Option<u128>) -> Result<
    SearchScope,
    ApiErrorView,
> {
    if scope == "channel"@ {
        match channel_id {
            Some(id) => Ok(SearchScope::Channel(id)),
            None => Err(ApiErrorView::BadRequest("channel_id is required when scope is 'channel'"@)),
        }
    } else if scope == "dm"@ {
        match dm_id {
            Some(id) => Ok(SearchScope::Dm(id)),
            None => Err(ApiErrorView::BadRequest("dm_id is required when scope is 'dm'"@)),
        }
    } else if scope == "all"@ {
        Ok(SearchScope::All)
    } else {
        Err(ApiErrorView::BadRequest("Invalid scope. Must be 'channel', 'dm', or 'all'"@))
    }
}

/// Resolves the scope of a search: `channel` needs a channel, `dm` needs a DM,
/// `all` needs nothing, and any other scope is refused.
pub fn resolve_scope(scope: &str, channel_id: Option<u128>, dm_id: Option<u128>) -> (r: Result<
    SearchScope,
    ApiError,
>)
    ensures
        match (r, scope_spec(scope@, channel_id, dm_id)) {
            (Ok(s), Ok(t)) => s == t,
            (Err(e), Err(v)) => e@ == v,
            _ => false,
        },
{
    if str_eq(scope, "channel") {
        match channel_id {
            Some(id) => Ok(SearchScope::Channel(id)),
            None => Err(bad_request("channel_id is required when scope is 'channel'")),
        }
    } else if str_eq(scope, "dm") {
        match dm_id {
            Some(id) => Ok(SearchScope::Dm(id)),
            None => Err(bad_request("dm_id is required when scope is 'dm'")),
        }
    } else if str_eq(scope, "all") {
        Ok(SearchScope::All)
    } else {
        Err(bad_request("Invalid scope. Must be 'channel', 'dm', or 'all'"))
    }
}

/// Refuses a search in a channel, or DM, that is not one of the organization's.
pub fn require_search_target(exists: bool, scope: &SearchScope) -> (r: Result<(), ApiError>)
    ensures
        exists ==> r is Ok,
        !exists && *scope == SearchScope::All ==> r is Ok,
        !exists && scope is Channel ==> (r matches Err(e) && e@ == ApiErrorView::NotFound(
            "Channel not found"@,
        )),
        !exists && scope is Dm ==> (r matches Err(e) && e@ == ApiErrorView::NotFound(
            "DM not found"@,
        )),
{
    if exists {
        return Ok(());
    }
    match scope {
        SearchScope::Channel(_) => Err(crate::errors::not_found("Channel not found")),
        SearchScope::Dm(_) => Err(crate::errors::not_found("DM not found")),
        SearchScope::All => Ok(()),
    }
}

/// The SQL of a search: the query, the count query, and the values bound to
/// `$2`, `$3`, ... (`$1` is the scope's channel, DM or organization; the last
/// placeholder of the query is the limit).
#[derive(Debug)]
pub struct SearchSql {
    pub query: String,
    pub count: String,
    pub bindings: Vec<String>,
}

/// The query's text before its filters.
pub open spec fn base_query(scope: SearchScope) -> Seq<char> {
    match scope {
        SearchScope::Channel(_) => "\n        SELECT m.* FROM messages m\n        LEFT JOIN users u ON m.user_id = u.id\n        WHERE m.channel_id = $1 AND m.deleted_at IS NULL AND m.encrypted_content IS NULL\n        "@,
        SearchScope::Dm(_) => "\n        SELECT m.* FROM messages m\n        LEFT JOIN users u ON m.user_id = u.id\n        WHERE m.dm_id = $1 AND m.deleted_at IS NULL AND m.encrypted_content IS NULL\n        "@,
        SearchScope::All => "\n        SELECT m.* FROM messages m\n        LEFT JOIN channels c ON m.channel_id = c.id\n        LEFT JOIN direct_messages dm ON m.dm_id = dm.id\n        LEFT JOIN users u ON m.user_id = u.id\n        WHERE (c.org_id = $1 OR dm.org_id = $1)\n            AND m.deleted_at IS NULL\n            AND m.encrypted_content IS NULL\n        "@,
    }
}

/// The count query's text before its filters.
pub open spec fn base_count(scope: SearchScope) -> Seq<char> {
    match scope {
        SearchScope::Channel(_) => "\n        SELECT COUNT(*) FROM messages m\n        LEFT JOIN users u ON m.user_id = u.id\n        WHERE m.channel_id = $1 AND m.deleted_at IS NULL AND m.encrypted_content IS NULL\n        "@,
        SearchScope::Dm(_) => "\n        SELECT COUNT(*) FROM messages m\n        LEFT JOIN users u ON m.user_id = u.id\n        WHERE m.dm_id = $1 AND m.deleted_at IS NULL AND m.encrypted_content IS NULL\n        "@,
        SearchScope::All => "\n        SELECT COUNT(*) FROM messages m\n        LEFT JOIN channels c ON m.channel_id = c.id\n        LEFT JOIN direct_messages dm ON m.dm_id = dm.id\n        LEFT JOIN users u ON m.user_id = u.id\n        WHERE (c.org_id = $1 OR dm.org_id = $1)\n            AND m.deleted_at IS NULL\n            AND m.encrypted_content IS NULL\n        "@,
    }
}

/// One filter clause: the SQL before its placeholder number, the SQL after it, and its value.
pub type Clause = (Seq<char>, Seq<char>, Seq<char>);

/// The clauses of the filters that are set, in order: text, author, channel
/// name (only when searching everything), before, after.
pub open spec fn clause_list(scope: SearchScope, f: SearchFiltersView) -> Seq<Clause> {
    let t = if !is_blank_spec(f.text_query) {
        seq![(" AND m.content_tsv @@ to_tsquery('english', $"@, ")"@, tsquery_spec(f.text_query))]
    } else {
        seq![]
    };
    let u = match f.from_user {
        Some(x) => seq![(" AND u.username ILIKE $"@, ""@, x)],
        None => seq![],
    };
    let c = match (scope, f.in_channel) {
        (SearchScope::All, Some(x)) => seq![(" AND c.name ILIKE $"@, ""@, x)],
        _ => seq![],
    };
    let b = match f.before_date {
        Some(x) => seq![(" AND m.created_at < $"@, ""@, x)],
        None => seq![],
    };
    let a = match f.after_date {
        Some(x) => seq![(" AND m.created_at > $"@, ""@, x)],
        None => seq![],
    };
    t + u + c + b + a
}

/// The clauses written out, numbering their placeholders from `start` on.
pub open spec fn render(cl: Seq<Clause>, start: nat) -> Seq<char>
    decreases cl.len(),
{
    if cl.len() == 0 {
        seq![]
    } else {
        render(cl.drop_last(), start) + cl.last().0 + decimal((start + cl.len() - 1) as nat)
            + cl.last().1
    }
}

/// The SQL that a search with these filters runs.
pub open spec fn search_sql_spec(scope: SearchScope, f: SearchFiltersView) -> (
    Seq<char>,
    Seq<char>,
    Seq<Seq<char>>,
) {
    let cl = clause_list(scope, f);
    (
        base_query(scope) + render(cl, 2) + " ORDER BY m.created_at DESC LIMIT $"@ + decimal(
            (2 + cl.len()) as nat,
        ),
        base_count(scope) + render(cl, 2),
        cl.map_values(|c: Clause| c.2),
    )
}

fn base_query_text(scope: &SearchScope) -> (s: String)
    ensures
        s@ == base_query(*scope),
{
    match scope {
        SearchScope::Channel(_) => String::from_str("\n        SELECT m.* FROM messages m\n        LEFT JOIN users u ON m.user_id = u.id\n        WHERE m.channel_id = $1 AND m.deleted_at IS NULL AND m.encrypted_content IS NULL\n        "),
        SearchScope::Dm(_) => String::from_str("\n        SELECT m.* FROM messages m\n        LEFT JOIN users u ON m.user_id = u.id\n        WHERE m.dm_id = $1 AND m.deleted_at IS NULL AND m.encrypted_content IS NULL\n        "),
        SearchScope::All => String::from_str("\n        SELECT m.* FROM messages m\n        LEFT JOIN channels c ON m.channel_id = c.id\n        LEFT JOIN direct_messages dm ON m.dm_id = dm.id\n        LEFT JOIN users u ON m.user_id = u.id\n        WHERE (c.org_id = $1 OR dm.org_id = $1)\n            AND m.deleted_at IS NULL\n            AND m.encrypted_content IS NULL\n        "),
    }
}

fn base_count_text(scope: &SearchScope) -> (s: String)
    ensures
        s@ == base_count(*scope),
{
    match scope {
        SearchScope::Channel(_) => String::from_str("\n        SELECT COUNT(*) FROM messages m\n        LEFT JOIN users u ON m.user_id = u.id\n        WHERE m.channel_id = $1 AND m.deleted_at IS NULL AND m.encrypted_content IS NULL\n        "),
        SearchScope::Dm(_) => String::from_str("\n        SELECT COUNT(*) FROM messages m\n        LEFT JOIN users u ON m.user_id = u.id\n        WHERE m.dm_id = $1 AND m.deleted_at IS NULL AND m.encrypted_content IS NULL\n        "),
        SearchScope::All => String::from_str("\n        SELECT COUNT(*) FROM messages m\n        LEFT JOIN channels c ON m.channel_id = c.id\n        LEFT JOIN direct_messages dm ON m.dm_id = dm.id\n        LEFT JOIN users u ON m.user_id = u.id\n        WHERE (c.org_id = $1 OR dm.org_id = $1)\n            AND m.deleted_at IS NULL\n            AND m.encrypted_content IS NULL\n        "),
    }
}

/// An exec clause: the SQL before the placeholder number, the SQL after it, the bound value.
pub type ClauseText = (&'static str, &'static str, String);

/// The mathematical model of exec clauses.
pub open spec fn clauses_view(v: Seq<ClauseText>) -> Seq<Clause> {
    v.map_values(|c: ClauseText| (c.0@, c.1@, c.2@))
}

fn copy_string(s: &String) -> (t: String)
    ensures
        t@ == s@,
{
    String::from_str(s.as_str())
}

fn filter_clauses(scope: &SearchScope, f: &SearchFilters) -> (v: Vec<ClauseText>)
    ensures
        clauses_view(v@) == clause_list(*scope, f@),
        v@.len() <= 5,
{
    let mut v: Vec<ClauseText> = Vec::new();
    let ghost fv = f@;
    let ghost t: Seq<Clause> = if !is_blank_spec(fv.text_query) {
        seq![(" AND m.content_tsv @@ to_tsquery('english', $"@, ")"@, tsquery_spec(fv.text_query))]
    } else {
        seq![]
    };
    if !is_blank(f.text_query.as_str()) {
        let q = to_tsquery_text(f.text_query.as_str());
        v.push((" AND m.content_tsv @@ to_tsquery('english', $", ")", q));
    }
    assert(clauses_view(v@) =~= t);
    let ghost u: Seq<Clause> = match fv.from_user {
        Some(x) => seq![(" AND u.username ILIKE $"@, ""@, x)],
        None => seq![],
    };
    match &f.from_user {
        Some(x) => {
            v.push((" AND u.username ILIKE $", "", copy_string(x)));
        },
        None => {},
    }
    assert(clauses_view(v@) =~= t + u);
    let ghost c: Seq<Clause> = match (*scope, fv.in_channel) {
        (SearchScope::All, Some(x)) => seq![(" AND c.name ILIKE $"@, ""@, x)],
        _ => seq![],
    };
    match (scope, &f.in_channel) {
        (SearchScope::All, Some(x)) => {
            v.push((" AND c.name ILIKE $", "", copy_string(x)));
        },
        _ => {},
    }
    assert(clauses_view(v@) =~= t + u + c);
    let ghost b: Seq<Clause> = match fv.before_date {
        Some(x) => seq![(" AND m.created_at < $"@, ""@, x)],
        None => seq![],
    };
    match &f.before_date {
        Some(x) => {
            v.push((" AND m.created_at < $", "", copy_string(x)));
        },
        None => {},
    }
    assert(clauses_view(v@) =~= t + u + c + b);
    let ghost a: Seq<Clause> = match fv.after_date {
        Some(x) => seq![(" AND m.created_at > $"@, ""@, x)],
        None => seq![],
    };
    match &f.after_date {
        Some(x) => {
            v.push((" AND m.created_at > $", "", copy_string(x)));
        },
        None => {},
    }
    assert(clauses_view(v@) =~= t + u + c + b + a);
    v
}

/// Builds the SQL of a search: the scope's base query, one clause per filter
/// that is set with its placeholder numbered from `$2` on, and (in the query
/// only) the ordering and the limit's placeholder after the last clause.
pub fn build_search_sql(scope: &SearchScope, filters: &SearchFilters) -> (sql: SearchSql)
    ensures
        (sql.query@, sql.count@, sql.bindings@.map_values(|b: String| b@)) == search_sql_spec(
            *scope,
            filters@,
        ),
{
    let cl = filter_clauses(scope, filters);
    let ghost cv = clauses_view(cl@);
    let mut query = base_query_text(scope);
    let mut count = base_count_text(scope);
    let mut bindings: Vec<String> = Vec::new();
    let mut i: usize = 0;
    assert(cv.take(0) =~= Seq::<Clause>::empty());
    while i < cl.len()
        invariant
            i <= cl@.len(),
            cv == clauses_view(cl@),
            cl@.len() <= 5,
            bindings@.len() == i,
            query@ == base_query(*scope) + render(cv.take(i as int), 2),
            count@ == base_count(*scope) + render(cv.take(i as int), 2),
            bindings@.map_values(|b: String| b@) == cv.take(i as int).map_values(|c: Clause| c.2),
        decreases cl.len() - i,
    {
        let n = decimal_string((i + 2) as u64);
        let (pre, post, value) = &cl[i];
        query.append(pre);
        query.append(n.as_str());
        query.append(post);
        count.append(pre);
        count.append(n.as_str());
        count.append(post);
        let ghost old_b = bindings@;
        bindings.push(copy_string(value));
        proof {
            let tk = cv.take(i + 1);
            assert(tk.drop_last() =~= cv.take(i as int));
            assert(tk.last() == cv[i as int]);
            assert(cv[i as int] == (pre@, post@, value@));
            let bv_old = old_b.map_values(|b: String| b@);
            let bv = bindings@.map_values(|b: String| b@);
            let tv_old = cv.take(i as int).map_values(|c: Clause| c.2);
            let tv = tk.map_values(|c: Clause| c.2);
            assert(bv_old == tv_old);
            assert forall|k: int| 0 <= k < i + 1 implies #[trigger] bv[k] == tv[k] by {
                if k < i {
                    assert(bindings@[k] == old_b[k]);
                    assert(bv_old[k] == old_b[k]@);
                    assert(tv_old[k] == tk[k].2);
                }
            }
            assert(bv =~= tv);
        }
        i = i + 1;
    }
    assert(cv.take(cl@.len() as int) =~= cv);
    let n = decimal_string((cl.len() + 2) as u64);
    query.append(" ORDER BY m.created_at DESC LIMIT $");
    query.append(n.as_str());
    SearchSql { query, count, bindings }
}

/// The hash of a search's parameters (`DefaultHasher` over the organization,
/// the query, the scope and the optional channel and DM, in that order).
/// Nothing is claimed of the value.
#[verifier::external_body]
fn search_params_hash(
    org_id: &str,
    query: &str,
    scope: &str,
    channel_id: Option<&str>,
    dm_id: Option<&str>,
) -> u64 {
    let mut hasher = DefaultHasher::new();
    org_id.hash(&mut hasher);
    query.hash(&mut hasher);
    scope.hash(&mut hasher);
    channel_id.hash(&mut hasher);
    dm_id.hash(&mut hasher);
    hasher.finish()
}

/// The cache key of a search whose parameters hash to `hash`:
/// `openchat:search:{org_id}:{hash}`.
pub open spec fn search_key_spec(org_id: Seq<char>, hash: u64) -> Seq<char> {
    "openchat:search:"@ + org_id + ":"@ + decimal(hash as nat)
}

/// The cache key of a search, given the hash of its parameters.
pub fn search_cache_key_from_hash(org_id: &str, hash: u64) -> (k: String)
    ensures
        k@ == search_key_spec(org_id@, hash),
{
    let mut s = String::from_str("openchat:search:");
    s.append(org_id);
    s.append(":");
    let h = decimal_string(hash);
    s.append(h.as_str());
    s
}

/// The cache key of a search: the organization, then the hash of all the search's parameters.
pub fn search_cache_key(
    org_id: &str,
    query: &str,
    scope: &str,
    channel_id: Option<&str>,
    dm_id: Option<&str>,
) -> (k: String)
    ensures
        exists|h: u64| k@ == search_key_spec(org_id@, h),
{
    let h = search_params_hash(org_id, query, scope, channel_id, dm_id);
    search_cache_key_from_hash(org_id, h)
}


/// The text occurs somewhere in a longer text.
pub open spec fn occurs_in(needle: Seq<char>, hay: Seq<char>) -> bool {
    exists|a: Seq<char>, b: Seq<char>| hay == a + needle + b
}

/// How many of the filters written before the date filters are set: the text,
/// the author, and the channel name when searching everything.
pub open spec fn filters_before_dates(scope: SearchScope, f: SearchFiltersView) -> nat {
    (if !is_blank_spec(f.text_query) { 1nat } else { 0nat }) + (if f.from_user is Some {
        1nat
    } else {
        0nat
    }) + (if scope is All && f.in_channel is Some {
        1nat
    } else {
        0nat
    })
}

/// Every clause appears in the written-out clauses, with its placeholder
/// numbered by its position.
proof fn lemma_render_holds_clause(cl: Seq<Clause>, start: nat, j: int)
    requires
        0 <= j < cl.len(),
    ensures
        occurs_in(cl[j].0 + decimal((start + j) as nat) + cl[j].1, render(cl, start)),
    decreases cl.len(),
{
    let dl = cl.drop_last();
    let tail = cl.last().0 + decimal((start + cl.len() - 1) as nat) + cl.last().1;
    assert(render(cl, start) == render(dl, start) + tail);
    if j == cl.len() - 1 {
        assert(render(cl, start) =~= render(dl, start) + tail + Seq::<char>::empty());
    } else {
        lemma_render_holds_clause(dl, start, j);
        let needle = dl[j].0 + decimal((start + j) as nat) + dl[j].1;
        let (a, b) = choose|a: Seq<char>, b: Seq<char>| render(dl, start) == a + needle + b;
        assert(render(cl, start) =~= a + needle + (b + tail));
    }
}

/// A clause at position `i` of the list shows up in the query and the count
/// query with placeholder `$(i + 2)`, and its value is bound at position `i`.
proof fn lemma_clause_in_sql(scope: SearchScope, f: SearchFiltersView, i: int)
    requires
        0 <= i < clause_list(scope, f).len(),
    ensures
        ({
            let cl = clause_list(scope, f);
            let sql = search_sql_spec(scope, f);
            let text = cl[i].0 + decimal((i + 2) as nat) + cl[i].1;
            &&& i < sql.2.len()
            &&& sql.2[i] == cl[i].2
            &&& occurs_in(text, sql.0)
            &&& occurs_in(text, sql.1)
        }),
{
    let cl = clause_list(scope, f);
    let sql = search_sql_spec(scope, f);
    let text = cl[i].0 + decimal((i + 2) as nat) + cl[i].1;
    lemma_render_holds_clause(cl, 2, i);
    let (a, b) = choose|a: Seq<char>, b: Seq<char>| render(cl, 2) == a + text + b;
    let lim = " ORDER BY m.created_at DESC LIMIT $"@ + decimal((2 + cl.len()) as nat);
    assert(sql.0 =~= (base_query(scope) + a) + text + (b + lim));
    assert(sql.1 =~= (base_count(scope) + a) + text + b);
}

/// A `before:` filter bounds the creation time from above: when it is set,
/// the query and the count query hold ` AND m.created_at < $n`, where `n` comes
/// right after the placeholders of the text, author and channel filters that
/// are set, and the value bound to `$n` is the before date.
pub proof fn law_before_bounds_from_above(scope: SearchScope, f: SearchFiltersView, x: Seq<char>)
    requires
        f.before_date == Some(x),
    ensures
        ({
            let sql = search_sql_spec(scope, f);
            let i = filters_before_dates(scope, f) as int;
            let clause = " AND m.created_at < $"@ + decimal((i + 2) as nat);
            &&& i < sql.2.len()
            &&& sql.2[i] == x
            &&& occurs_in(clause, sql.0)
            &&& occurs_in(clause, sql.1)
        }),
{
    reveal_strlit("");
    let cl = clause_list(scope, f);
    let i = filters_before_dates(scope, f) as int;
    assert(cl[i] == (" AND m.created_at < $"@, ""@, x));
    lemma_clause_in_sql(scope, f, i);
    assert(cl[i].0 + decimal((i + 2) as nat) + cl[i].1 =~= " AND m.created_at < $"@ + decimal(
        (i + 2) as nat,
    ));
}

/// An `after:` filter bounds the creation time from below: when it is set, the
/// query and the count query hold ` AND m.created_at > $n`, where `n` comes
/// right after the placeholders of the other filters that are set, and the
/// value bound to `$n` is the after date.
pub proof fn law_after_bounds_from_below(scope: SearchScope, f: SearchFiltersView, y: Seq<char>)
    requires
        f.after_date == Some(y),
    ensures
        ({
            let sql = search_sql_spec(scope, f);
            let i = filters_before_dates(scope, f) + (if f.before_date is Some {
                1int
            } else {
                0int
            });
            let clause = " AND m.created_at > $"@ + decimal((i + 2) as nat);
            &&& i < sql.2.len()
            &&& sql.2[i] == y
            &&& occurs_in(clause, sql.0)
            &&& occurs_in(clause, sql.1)
        }),
{
    reveal_strlit("");
    let cl = clause_list(scope, f);
    let i = filters_before_dates(scope, f) + (if f.before_date is Some {
        1int
    } else {
        0int
    });
    assert(cl[i] == (" AND m.created_at > $"@, ""@, y));
    lemma_clause_in_sql(scope, f, i);
    assert(cl[i].0 + decimal((i + 2) as nat) + cl[i].1 =~= " AND m.created_at > $"@ + decimal(
        (i + 2) as nat,
    ));
}

/// A search binds one value per filter that is set, and no more.
pub proof fn law_one_binding_per_filter(scope: SearchScope, f: SearchFiltersView)
    ensures
        search_sql_spec(scope, f).2.len() == filters_before_dates(scope, f) + (if f.before_date is Some {
            1nat
        } else {
            0nat
        }) + (if f.after_date is Some {
            1nat
        } else {
            0nat
        }),
{
}


/// A `from:` filter and (when searching everything) an `in:` filter match the
/// author's username and the channel's name case-insensitively: when set, the
/// query holds ` AND u.username ILIKE $n` bound to the username, right after
/// the text filter's placeholder if any, and ` AND c.name ILIKE $m` bound to
/// the channel name right after that. An `in:` filter is ignored when the
/// search is limited to one channel or DM.
pub proof fn law_author_and_channel_filters(scope: SearchScope, f: SearchFiltersView)
    ensures
        ({
            let sql = search_sql_spec(scope, f);
            let t: int = if !is_blank_spec(f.text_query) { 1 } else { 0 };
            match f.from_user {
                Some(u) => {
                    let clause = " AND u.username ILIKE $"@ + decimal((t + 2) as nat);
                    &&& t < sql.2.len()
                    &&& sql.2[t] == u
                    &&& occurs_in(clause, sql.0)
                    &&& occurs_in(clause, sql.1)
                },
                None => true,
            }
        }),
        ({
            let sql = search_sql_spec(scope, f);
            let i: int = (if !is_blank_spec(f.text_query) { 1int } else { 0int }) + (if f.from_user is Some {
                1int
            } else {
                0int
            });
            match (scope, f.in_channel) {
                (SearchScope::All, Some(c)) => {
                    let clause = " AND c.name ILIKE $"@ + decimal((i + 2) as nat);
                    &&& i < sql.2.len()
                    &&& sql.2[i] == c
                    &&& occurs_in(clause, sql.0)
                    &&& occurs_in(clause, sql.1)
                },
                _ => true,
            }
        }),
        !(scope is All) ==> search_sql_spec(scope, f).2.len() == filters_before_dates(scope, f) + (
        if f.before_date is Some {
            1nat
        } else {
            0nat
        }) + (if f.after_date is Some {
            1nat
        } else {
            0nat
        }) && filters_before_dates(scope, f) == (if !is_blank_spec(f.text_query) {
            1nat
        } else {
            0nat
        }) + (if f.from_user is Some {
            1nat
        } else {
            0nat
        }),
{
    reveal_strlit("");
    let cl = clause_list(scope, f);
    let t: int = if !is_blank_spec(f.text_query) { 1 } else { 0 };
    if let Some(u) = f.from_user {
        assert(cl[t] == (" AND u.username ILIKE $"@, ""@, u));
        lemma_clause_in_sql(scope, f, t);
        assert(cl[t].0 + decimal((t + 2) as nat) + cl[t].1 =~= " AND u.username ILIKE $"@ + decimal(
            (t + 2) as nat,
        ));
    }
    let i: int = t + (if f.from_user is Some { 1int } else { 0int });
    if let (SearchScope::All, Some(c)) = (scope, f.in_channel) {
        assert(cl[i] == (" AND c.name ILIKE $"@, ""@, c));
        lemma_clause_in_sql(scope, f, i);
        assert(cl[i].0 + decimal((i + 2) as nat) + cl[i].1 =~= " AND c.name ILIKE $"@ + decimal(
            (i + 2) as nat,
        ));
    }
}

} // verus!
