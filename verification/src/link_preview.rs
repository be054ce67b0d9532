//! Link previews: which URLs may be fetched, and the Open Graph metadata read
//! from a fetched page.
use vstd::prelude::*;
use crate::errors::{ApiError, ApiErrorView, bad_request, concat2};
use crate::patterns::{Capture, CaptureView, first_capture, regex_capture, regex_escape, escaped, opt_view};
use crate::text::{contains_seq, contains_str, is_prefix, starts_with, trim, trim_spec};

verus! {

/// A URL may be previewed when it is an `http://` or `https://` URL.
pub open spec fn valid_url_spec(url: Seq<char>) -> bool {
    is_prefix("http://"@, url) || is_prefix("https://"@, url)
}

/// Whether a URL may be previewed.
pub fn is_valid_url(url: &str) -> (b: bool)
    ensures
        b == valid_url_spec(url@),
{
    starts_with(url, "http://") || starts_with(url, "https://")
}

/// A request for the preview of a link.
pub struct LinkPreviewRequest {
    pub url: String,
}

/// Refuses a preview of a URL that is not an `http://` or `https://` URL.
pub fn check_preview_request(req: &LinkPreviewRequest) -> (r: Result<(), ApiError>)
    ensures
        r is Ok <==> valid_url_spec(req.url@),
        r matches Err(e) ==> e@ == ApiErrorView::BadRequest("Invalid URL format"@),
{
    if !is_valid_url(req.url.as_str()) {
        return Err(bad_request("Invalid URL format"));
    }
    Ok(())
}

/// The error answered when the page answers with a status that is not a success.
pub fn fetch_status_error(status: &str) -> (e: ApiError)
    ensures
        e@ == ApiErrorView::BadRequest("Failed to fetch URL: HTTP "@ + status@),
{
    ApiError::BadRequest(concat2("Failed to fetch URL: HTTP ", status))
}

/// Whether a page's content type announces HTML (only HTML pages are read).
pub fn is_html_content_type(content_type: &str) -> (b: bool)
    ensures
        b == contains_seq(content_type@, "text/html"@),
{
    contains_str(content_type, "text/html")
}

/// The metadata of a previewed link.
#[derive(Debug)]
pub struct LinkPreviewResponse {
    pub url: String,
    pub title: Option<String>,
    pub description: Option<String>,
    pub image: Option<String>,
    pub site_name: Option<String>,
}

/// The mathematical model of a [`LinkPreviewResponse`].
pub struct LinkPreviewResponseView {
    pub url: Seq<char>,
    pub title: Option<Seq<char>>,
    pub description: Option<Seq<char>>,
    pub image: Option<Seq<char>>,
    pub site_name: Option<Seq<char>>,
}

impl View for LinkPreviewResponse {
    type V = LinkPreviewResponseView;

    open spec fn view(&self) -> LinkPreviewResponseView {
        LinkPreviewResponseView {
            url: self.url@,
            title: opt_view(self.title),
            description: opt_view(self.description),
            image: opt_view(self.image),
            site_name: opt_view(self.site_name),
        }
    }
}

/// The preview of a page that is not HTML: the URL and nothing else.
pub fn empty_preview(url: &str) -> (p: LinkPreviewResponse)
    ensures
        p@ == (LinkPreviewResponseView {
            url: url@,
            title: None,
            description: None,
            image: None,
            site_name: None,
        }),
{
    LinkPreviewResponse {
        url: String::from_str(url),
        title: None,
        description: None,
        image: None,
        site_name: None,
    }
}

/// `<meta property="{p}" content="...">`, quotes single or double.
pub open spec fn og_pattern(esc: Seq<char>) -> Seq<char> {
    "<meta\\s+property=[\"']"@ + esc + "[\"']\\s+content=[\"']([^\"']+)[\"']"@
}

/// `<meta name="{p}" content="...">`.
pub open spec fn name_pattern(esc: Seq<char>) -> Seq<char> {
    "<meta\\s+name=[\"']"@ + esc + "[\"']\\s+content=[\"']([^\"']+)[\"']"@
}

/// `<meta content="..." property="{p}">`.
pub open spec fn alt_pattern(esc: Seq<char>) -> Seq<char> {
    "<meta\\s+content=[\"']([^\"']+)[\"']\\s+property=[\"']"@ + esc + "[\"']"@
}

/// The value of a match's first group, if the pattern matched.
pub open spec fn matched_value(c: CaptureView) -> Option<Seq<char>> {
    match c {
        CaptureView::Found { group: Some(g), .. } => Some(g),
        _ => None,
    }
}

/// The content of the first meta tag naming `property`, tried in three forms in
/// turn: `property` then `content`, `name` then `content`, `content` then
/// `property`. A form that is not a valid pattern, or does not occur, is passed over.
pub open spec fn meta_tag_spec(html: Seq<char>, property: Seq<char>) -> Option<Seq<char>> {
    let esc = escaped(property);
    let a = matched_value(regex_capture(og_pattern(esc), html));
    let b = matched_value(regex_capture(name_pattern(esc), html));
    let c = matched_value(regex_capture(alt_pattern(esc), html));
    if a is Some {
        a
    } else if b is Some {
        b
    } else {
        c
    }
}

fn capture_value(c: Capture) -> (v: Option<String>)
    ensures
        opt_view(v) == matched_value(c@),
{
    match c {
        Capture::Found { group: Some(g), .. } => Some(g),
        _ => None,
    }
}

/// Reads the content of a meta tag (Open Graph `property` or plain `name`).
pub fn extract_meta_tag(html: &str, property: &str) -> (v: Option<String>)
    ensures
        opt_view(v) == meta_tag_spec(html@, property@),
{
    let esc = regex_escape(property);
    let mut og = String::from_str("<meta\\s+property=[\"']");
    og.append(esc.as_str());
    og.append("[\"']\\s+content=[\"']([^\"']+)[\"']");
    let a = capture_value(first_capture(og.as_str(), html));
    if a.is_some() {
        return a;
    }
    let mut nm = String::from_str("<meta\\s+name=[\"']");
    nm.append(esc.as_str());
    nm.append("[\"']\\s+content=[\"']([^\"']+)[\"']");
    let b = capture_value(first_capture(nm.as_str(), html));
    if b.is_some() {
        return b;
    }
    let mut alt = String::from_str("<meta\\s+content=[\"']([^\"']+)[\"']\\s+property=[\"']");
    alt.append(esc.as_str());
    alt.append("[\"']");
    capture_value(first_capture(alt.as_str(), html))
}

/// The text of the page's `<title>` tag, without surrounding whitespace.
pub open spec fn title_tag_spec(html: Seq<char>) -> Option<Seq<char>> {
    match matched_value(regex_capture("<title>([^<]+)</title>"@, html)) {
        Some(t) => Some(trim_spec(t)),
        None => None,
    }
}

/// Reads the page's `<title>`.
pub fn extract_title_tag(html: &str) -> (v: Option<String>)
    ensures
        opt_view(v) == title_tag_spec(html@),
{
    match capture_value(first_capture("<title>([^<]+)</title>", html)) {
        Some(t) => Some(trim(t.as_str())),
        None => None,
    }
}

/// The first of two optional values that is present.
pub open spec fn or_else<T>(a: Option<T>, b: Option<T>) -> Option<T> {
    if a is Some {
        a
    } else {
        b
    }
}

/// The preview of an HTML page: the Open Graph title (else the `<title>`),
/// the Open Graph description (else the `description` meta tag), the Open
/// Graph image and the Open Graph site name.
pub open spec fn preview_spec(url: Seq<char>, html: Seq<char>) -> LinkPreviewResponseView {
    LinkPreviewResponseView {
        url,
        title: or_else(meta_tag_spec(html, "og:title"@), title_tag_spec(html)),
        description: or_else(
            meta_tag_spec(html, "og:description"@),
            meta_tag_spec(html, "description"@),
        ),
        image: meta_tag_spec(html, "og:image"@),
        site_name: meta_tag_spec(html, "og:site_name"@),
    }
}

/// Builds the preview of a fetched HTML page.
pub fn preview_from_html(url: &str, html: &str) -> (p: LinkPreviewResponse)
    ensures
        p@ == preview_spec(url@, html@),
{
    let og_title = extract_meta_tag(html, "og:title");
    let title = if og_title.is_some() {
        og_title
    } else {
        extract_title_tag(html)
    };
    let og_desc = extract_meta_tag(html, "og:description");
    let description = if og_desc.is_some() {
        og_desc
    } else {
        extract_meta_tag(html, "description")
    };
    let image = extract_meta_tag(html, "og:image");
    let site_name = extract_meta_tag(html, "og:site_name");
    LinkPreviewResponse { url: String::from_str(url), title, description, image, site_name }
}


/// The preview shows the page's Open Graph image: the content of its
/// `og:image` meta tag whenever the page has one, and no image otherwise. In
/// particular a page with a `<meta property="og:image" content="...">` tag is
/// shown with that content as its image, and the image never depends on the URL.
pub proof fn law_preview_image_is_og_image(url: Seq<char>, other_url: Seq<char>, html: Seq<char>)
    ensures
        preview_spec(url, html).image == meta_tag_spec(html, "og:image"@),
        matched_value(regex_capture(og_pattern(escaped("og:image"@)), html)) matches Some(g)
            ==> preview_spec(url, html).image == Some(g),
        meta_tag_spec(html, "og:image"@) is None ==> preview_spec(url, html).image is None,
        preview_spec(url, html).image == preview_spec(other_url, html).image,
        preview_spec(url, html).url == url,
{
}


/// The other fields of a preview: the title is the `og:title` tag's content,
/// else the page's `<title>`; the description is the `og:description` tag's
/// content, else the `description` tag's; the site name is the
/// `og:site_name` tag's content.
pub proof fn law_preview_text_fields(url: Seq<char>, html: Seq<char>)
    ensures
        meta_tag_spec(html, "og:title"@) matches Some(t) ==> preview_spec(url, html).title == Some(t),
        meta_tag_spec(html, "og:title"@) is None ==> preview_spec(url, html).title == title_tag_spec(
            html,
        ),
        meta_tag_spec(html, "og:description"@) matches Some(d) ==> preview_spec(url, html).description
            == Some(d),
        meta_tag_spec(html, "og:description"@) is None ==> preview_spec(url, html).description
            == meta_tag_spec(html, "description"@),
        preview_spec(url, html).site_name == meta_tag_spec(html, "og:site_name"@),
{
}

} // verus!
