//! The API error type, its HTTP status codes and its messages.
use vstd::prelude::*;

verus! {

/// An error answered by the API. Each variant carries the text of its cause.
#[derive(Debug)]
pub enum ApiError {
    Database(String),
    Redis(String),
    Authentication(String),
    Authorization(String),
    NotFound(String),
    BadRequest(String),
    Internal(String),
    ExternalApi(String),
}

/// The mathematical model of an [`ApiError`]: its variant and its text.
pub enum ApiErrorView {
    Database(Seq<char>),
    Redis(Seq<char>),
    Authentication(Seq<char>),
    Authorization(Seq<char>),
    NotFound(Seq<char>),
    BadRequest(Seq<char>),
    Internal(Seq<char>),
    ExternalApi(Seq<char>),
}

impl View for ApiError {
    type V = ApiErrorView;

    open spec fn view(&self) -> ApiErrorView {
        match self {
            ApiError::Database(s) => ApiErrorView::Database(s@),
            ApiError::Redis(s) => ApiErrorView::Redis(s@),
            ApiError::Authentication(s) => ApiErrorView::Authentication(s@),
            ApiError::Authorization(s) => ApiErrorView::Authorization(s@),
            ApiError::NotFound(s) => ApiErrorView::NotFound(s@),
            ApiError::BadRequest(s) => ApiErrorView::BadRequest(s@),
            ApiError::Internal(s) => ApiErrorView::Internal(s@),
            ApiError::ExternalApi(s) => ApiErrorView::ExternalApi(s@),
        }
    }
}

/// The HTTP status code answered for an error.
pub open spec fn status_of(e: ApiErrorView) -> u16 {
    match e {
        ApiErrorView::Database(_) => 500,
        ApiErrorView::Redis(_) => 500,
        ApiErrorView::Authentication(_) => 401,
        ApiErrorView::Authorization(_) => 403,
        ApiErrorView::NotFound(_) => 404,
        ApiErrorView::BadRequest(_) => 400,
        ApiErrorView::Internal(_) => 500,
        ApiErrorView::ExternalApi(_) => 502,
    }
}

/// The text shown for an error: a prefix naming its kind, then its cause.
pub open spec fn message_of(e: ApiErrorView) -> Seq<char> {
    match e {
        ApiErrorView::Database(s) => "Database error: "@ + s,
        ApiErrorView::Redis(s) => "Redis error: "@ + s,
        ApiErrorView::Authentication(s) => "Authentication error: "@ + s,
        ApiErrorView::Authorization(s) => "Authorization error: "@ + s,
        ApiErrorView::NotFound(s) => "Not found: "@ + s,
        ApiErrorView::BadRequest(s) => "Bad request: "@ + s,
        ApiErrorView::Internal(s) => "Internal server error: "@ + s,
        ApiErrorView::ExternalApi(s) => "External API error: "@ + s,
    }
}

impl ApiError {
    /// The HTTP status code of this error.
    pub fn status_code(&self) -> (code: u16)
        ensures
            code == status_of(self@),
    {
        match self {
            ApiError::Database(_) => 500,
            ApiError::Redis(_) => 500,
            ApiError::Authentication(_) => 401,
            ApiError::Authorization(_) => 403,
            ApiError::NotFound(_) => 404,
            ApiError::BadRequest(_) => 400,
            ApiError::Internal(_) => 500,
            ApiError::ExternalApi(_) => 502,
        }
    }

    /// The message of this error, as its `Display` shows it.
    pub fn message(&self) -> (m: String)
        ensures
            m@ == message_of(self@),
    {
        match self {
            ApiError::Database(s) => String::from_str("Database error: ").concat(s.as_str()),
            ApiError::Redis(s) => String::from_str("Redis error: ").concat(s.as_str()),
            ApiError::Authentication(s) => String::from_str("Authentication error: ").concat(
                s.as_str(),
            ),
            ApiError::Authorization(s) => String::from_str("Authorization error: ").concat(
                s.as_str(),
            ),
            ApiError::NotFound(s) => String::from_str("Not found: ").concat(s.as_str()),
            ApiError::BadRequest(s) => String::from_str("Bad request: ").concat(s.as_str()),
            ApiError::Internal(s) => String::from_str("Internal server error: ").concat(s.as_str()),
            ApiError::ExternalApi(s) => String::from_str("External API error: ").concat(s.as_str()),
        }
    }
}

/// A `BadRequest` error with the given text.
pub fn bad_request(msg: &str) -> (e: ApiError)
    ensures
        e@ == ApiErrorView::BadRequest(msg@),
{
    ApiError::BadRequest(String::from_str(msg))
}

/// A `NotFound` error with the given text.
pub fn not_found(msg: &str) -> (e: ApiError)
    ensures
        e@ == ApiErrorView::NotFound(msg@),
{
    ApiError::NotFound(String::from_str(msg))
}

/// An `Authorization` error with the given text.
pub fn forbidden(msg: &str) -> (e: ApiError)
    ensures
        e@ == ApiErrorView::Authorization(msg@),
{
    ApiError::Authorization(String::from_str(msg))
}

/// An `Internal` error with the given text.
pub fn internal(msg: &str) -> (e: ApiError)
    ensures
        e@ == ApiErrorView::Internal(msg@),
{
    ApiError::Internal(String::from_str(msg))
}

/// The text concatenation of two string slices.
pub fn concat2(a: &str, b: &str) -> (s: String)
    ensures
        s@ == a@ + b@,
{
    String::from_str(a).concat(b)
}

/// The text concatenation of three string slices.
pub fn concat3(a: &str, b: &str, c: &str) -> (s: String)
    ensures
        s@ == a@ + b@ + c@,
{
    String::from_str(a).concat(b).concat(c)
}

} // verus!
