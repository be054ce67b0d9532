//! Regular-expression matching, through the regex crate.
use vstd::prelude::*;

verus! {

/// The first match of a pattern in a text, split around the match.
#[derive(Debug)]
pub enum Capture {
    /// The pattern is not a valid regular expression.
    InvalidPattern,
    /// The pattern does not occur in the text.
    NoMatch,
    /// The leftmost-first match: the text before it, the match, its first
    /// capture group (if that group took part), and the text after it.
    Found { before: String, matched: String, group: Option<String>, after: String },
}

/// The mathematical model of a [`Capture`].
pub enum CaptureView {
    InvalidPattern,
    NoMatch,
    Found { before: Seq<char>, matched: Seq<char>, group: Option<Seq<char>>, after: Seq<char> },
}

/// The text of an optional string.
pub open spec fn opt_view(o: Option<String>) -> Option<Seq<char>> {
    match o {
        Some(s) => Some(s@),
        None => None,
    }
}

impl View for Capture {
    type V = CaptureView;

    open spec fn view(&self) -> CaptureView {
        match self {
            Capture::InvalidPattern => CaptureView::InvalidPattern,
            Capture::NoMatch => CaptureView::NoMatch,
            Capture::Found { before, matched, group, after } => CaptureView::Found {
                before: before@,
                matched: matched@,
                group: opt_view(*group),
                after: after@,
            },
        }
    }
}

/// The first match of `pattern` in `text`, as the regex crate finds it.
pub uninterp spec fn regex_capture(pattern: Seq<char>, text: Seq<char>) -> CaptureView;

/// `Regex::new(pattern)` then `captures(text)` of the regex crate: the
/// leftmost-first match of the pattern and its first group. The claim is that
/// the result equals `regex_capture(pattern, text)`, and that a match is a piece
/// of the text: the text is the part before it, the match and the part after it.
#[verifier::external_body]
pub(crate) fn first_capture(pattern: &str, text: &str) -> (c: Capture)
    ensures
        c@ == regex_capture(pattern@, text@),
        c@ matches CaptureView::Found { before, matched, after, .. } ==> text@ == before + matched
            + after,
{
    let re = match regex::Regex::new(pattern) {
        Ok(re) => re,
        Err(_) => return Capture::InvalidPattern,
    };
    match re.captures(text) {
        None => Capture::NoMatch,
        Some(c) => {
            let m = c.get(0).unwrap();
            let group = c.get(1).map(|g| g.as_str().to_string());
            let (before, after) = (text[..m.start()].to_string(), text[m.end()..].to_string());
            Capture::Found { before, matched: m.as_str().to_string(), group, after }
        },
    }
}

/// Whether `pattern` matches somewhere in `text`, as the regex crate decides it.
pub uninterp spec fn regex_match(pattern: Seq<char>, text: Seq<char>) -> bool;

/// The pattern of a user-group handle: one or more lowercase ASCII letters,
/// digits, underscores or hyphens, and nothing else.
pub open spec fn handle_pattern() -> Seq<char> {
    "^[a-z0-9_-]+$"@
}

/// A character of the class `[a-z0-9_-]`.
pub open spec fn is_handle_char(c: char) -> bool {
    ('a' <= c && c <= 'z') || ('0' <= c && c <= '9') || c == '_' || c == '-'
}

/// A text that `^[a-z0-9_-]+$` matches: not empty, and made of that class only.
pub open spec fn is_handle(text: Seq<char>) -> bool {
    text.len() > 0 && forall|i: int| 0 <= i < text.len() ==> is_handle_char(#[trigger] text[i])
}

/// `Regex::new(pattern)` then `is_match(text)` of the regex crate (false for an
/// invalid pattern). The claim is that the answer is `regex_match(pattern, text)`;
/// and, by the regex syntax (`^` and `$` anchor the whole text without the
/// multi-line flag, `[a-z0-9_-]` is that character class, `+` one or more), that
/// for the handle pattern it says whether the text is a non-empty run of the class.
#[verifier::external_body]
pub(crate) fn regex_is_match(pattern: &str, text: &str) -> (b: bool)
    ensures
        b == regex_match(pattern@, text@),
        pattern@ == handle_pattern() ==> (b <==> is_handle(text@)),
{
    match regex::Regex::new(pattern) {
        Ok(re) => re.is_match(text),
        Err(_) => false,
    }
}

/// The characters that have a meaning in a regular expression.
pub open spec fn is_meta(c: char) -> bool {
    c == '\\' || c == '.' || c == '+' || c == '*' || c == '?' || c == '(' || c == ')' || c == '|'
        || c == '[' || c == ']' || c == '{' || c == '}' || c == '^' || c == '$' || c == '#' || c
        == '&' || c == '-' || c == '~'
}

/// `s` with a backslash before each meta character.
pub open spec fn escaped(s: Seq<char>) -> Seq<char>
    decreases s.len(),
{
    if s.len() == 0 {
        seq![]
    } else {
        escaped(s.drop_last()) + (if is_meta(s.last()) {
            seq!['\\', s.last()]
        } else {
            seq![s.last()]
        })
    }
}

/// `regex::escape`: puts a backslash before each of the characters
/// `\ . + * ? ( ) | [ ] { } ^ $ # & - ~` and keeps every other character.
#[verifier::external_body]
pub(crate) fn regex_escape(s: &str) -> (r: String)
    ensures
        r@ == escaped(s@),
{
    regex::escape(s)
}

} // verus!
