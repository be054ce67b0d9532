//! Audit log listing defaults and the CSV export.
use vstd::prelude::*;
use crate::ids::{uuid_string, uuid_text};
use crate::text::{chars_of, contains_char, string_of};

verus! {

/// `s` with each double quote doubled (`replace('"', "\"\"")`).
pub open spec fn double_quotes(s: Seq<char>) -> Seq<char>
    decreases s.len(),
{
    if s.len() == 0 {
        seq![]
    } else {
        double_quotes(s.drop_last()) + (if s.last() == '"' {
            seq!['"', '"']
        } else {
            seq![s.last()]
        })
    }
}

/// A CSV field: quoted, with its quotes doubled, when it holds a comma, a
/// double quote or a newline; otherwise as it is.
pub open spec fn csv_field(s: Seq<char>) -> Seq<char> {
    if s.contains(',') || s.contains('"') || s.contains('\n') {
        seq!['"'] + double_quotes(s) + seq!['"']
    } else {
        s
    }
}

/// Escapes a field for CSV.
pub fn escape_csv(field: &str) -> (r: String)
    ensures
        r@ == csv_field(field@),
{
    if contains_char(field, ',') || contains_char(field, '"') || contains_char(field, '\n') {
        let v = chars_of(field);
        let mut out: Vec<char> = Vec::new();
        out.push('"');
        let mut i: usize = 0;
        assert(v@.take(0) =~= Seq::<char>::empty());
        while i < v.len()
            invariant
                v@ == field@,
                i <= v@.len(),
                out@ == seq!['"'] + double_quotes(v@.take(i as int)),
            decreases v.len() - i,
        {
            let c = v[i];
            if c == '"' {
                out.push('"');
                out.push('"');
            } else {
                out.push(c);
            }
            assert(v@.take(i + 1).drop_last() =~= v@.take(i as int));
            assert(v@.take(i + 1).last() == c);
            assert(out@ =~= seq!['"'] + double_quotes(v@.take(i + 1)));
            i = i + 1;
        }
        out.push('"');
        assert(v@.take(v@.len() as int) =~= v@);
        string_of(out.as_slice())
    } else {
        String::from_str(field)
    }
}

/// The limit and offset reported with a page of audit logs: 100 and 0 unless given.
pub fn audit_page_bounds(limit: Option<i64>, offset: Option<i64>) -> (r: (i64, i64))
    ensures
        r.0 == (match limit {
            Some(l) => l,
            None => 100,
        }),
        r.1 == (match offset {
            Some(o) => o,
            None => 0,
        }),
{
    let l = match limit {
        Some(l) => l,
        None => 100,
    };
    let o = match offset {
        Some(o) => o,
        None => 0,
    };
    (l, o)
}

/// The most rows an export holds.
pub fn export_row_limit() -> (n: i64)
    ensures
        n == 10000,
{
    10000
}

/// An audit log entry as the export reads it (the timestamp already written
/// in RFC 3339 and the metadata already written as JSON).
#[derive(Debug)]
pub struct AuditLogRow {
    pub id: u128,
    pub user_id: Option<u128>,
    pub action: String,
    pub resource_type: String,
    pub resource_id: Option<u128>,
    pub ip_address: Option<String>,
    pub user_agent: Option<String>,
    pub timestamp: String,
    pub metadata_json: String,
}

/// The header line of the export.
pub open spec fn csv_header() -> Seq<char> {
    "ID,User ID,Action,Resource Type,Resource ID,IP Address,User Agent,Timestamp,Metadata\n"@
}

/// The text of an optional identifier: empty when absent.
pub open spec fn opt_id_text(id: Option<u128>) -> Seq<char> {
    match id {
        Some(i) => uuid_text(i),
        None => seq![],
    }
}

/// The text of an optional string: empty when absent.
pub open spec fn opt_text(s: Option<String>) -> Seq<char> {
    match s {
        Some(t) => t@,
        None => seq![],
    }
}

/// One line of the export. The IP address is written as it is; the action,
/// resource type, user agent and metadata are escaped.
pub open spec fn csv_row(r: AuditLogRow) -> Seq<char> {
    uuid_text(r.id) + ","@ + opt_id_text(r.user_id) + ","@ + csv_field(r.action@) + ","@
        + csv_field(r.resource_type@) + ","@ + opt_id_text(r.resource_id) + ","@ + opt_text(
        r.ip_address,
    ) + ","@ + csv_field(opt_text(r.user_agent)) + ","@ + r.timestamp@ + ","@ + csv_field(
        r.metadata_json@,
    ) + "\n"@
}

/// The lines of the export for the given rows, in order.
pub open spec fn csv_rows(rows: Seq<AuditLogRow>) -> Seq<char>
    decreases rows.len(),
{
    if rows.len() == 0 {
        seq![]
    } else {
        csv_rows(rows.drop_last()) + csv_row(rows.last())
    }
}

fn opt_id_string(id: Option<u128>) -> (s: String)
    ensures
        s@ == opt_id_text(id),
{
    match id {
        Some(i) => uuid_string(i),
        None => String::new(),
    }
}

fn opt_str(s: &Option<String>) -> (r: String)
    ensures
        r@ == opt_text(*s),
{
    match s {
        Some(t) => String::from_str(t.as_str()),
        None => String::new(),
    }
}

/// The export line of one audit log entry.
pub fn audit_csv_row(r: &AuditLogRow) -> (line: String)
    ensures
        line@ == csv_row(*r),
{
    let mut s = uuid_string(r.id);
    s.append(",");
    s.append(opt_id_string(r.user_id).as_str());
    s.append(",");
    s.append(escape_csv(r.action.as_str()).as_str());
    s.append(",");
    s.append(escape_csv(r.resource_type.as_str()).as_str());
    s.append(",");
    s.append(opt_id_string(r.resource_id).as_str());
    s.append(",");
    s.append(opt_str(&r.ip_address).as_str());
    s.append(",");
    s.append(escape_csv(opt_str(&r.user_agent).as_str()).as_str());
    s.append(",");
    s.append(r.timestamp.as_str());
    s.append(",");
    s.append(escape_csv(r.metadata_json.as_str()).as_str());
    s.append("\n");
    s
}

/// The CSV export of audit log entries: the header, then one line per entry.
pub fn audit_csv(rows: &Vec<AuditLogRow>) -> (csv: String)
    ensures
        csv@ == csv_header() + csv_rows(rows@),
{
    let mut csv = String::from_str(
        "ID,User ID,Action,Resource Type,Resource ID,IP Address,User Agent,Timestamp,Metadata\n",
    );
    let mut i: usize = 0;
    assert(rows@.take(0) =~= Seq::<AuditLogRow>::empty());
    while i < rows.len()
        invariant
            i <= rows@.len(),
            csv@ == csv_header() + csv_rows(rows@.take(i as int)),
        decreases rows.len() - i,
    {
        let line = audit_csv_row(&rows[i]);
        csv.append(line.as_str());
        assert(rows@.take(i + 1).drop_last() =~= rows@.take(i as int));
        assert(rows@.take(i + 1).last() == rows@[i as int]);
        i = i + 1;
    }
    assert(rows@.take(rows@.len() as int) =~= rows@);
    csv
}

} // verus!
