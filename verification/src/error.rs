//! The errors of the client.

use vstd::prelude::*;

verus! {

/// The payload of an error response of the API: a JSON object whose
/// `error` member, where it is a string, is the API's message.
#[derive(Debug)]
pub struct ApiError {
    /// The message the API gave, if any.
    pub error: Option<String>,
}

impl View for ApiError {
    type V = Option<Seq<char>>;

    open spec fn view(&self) -> Option<Seq<char>> {
        match self.error {
            Some(text) => Some(text@),
            None => None,
        }
    }
}

/// What can go wrong between building a request and reading its result.
#[derive(Debug)]
#[allow(inconsistent_fields)]
pub enum OsuError {
    /// The client was built without a client id.
    BuilderMissingId,
    /// The client was built without a client secret.
    BuilderMissingSecret,
    /// The token could not be turned into a header value.
    CreatingTokenHeader { source: hyper::header::InvalidHeaderValue },
    /// The body of a response could not be read.
    ChunkingResponse { reason: String },
    /// The client holds no access token.
    NoToken,
    /// The API answered 404.
    NotFound,
    /// The body of a successful response does not have the expected shape.
    Parsing { body: String, source: serde_json::Error },
    /// The body of an error response is not an error payload.
    ParsingError { status: u16, body: String, source: serde_json::Error },
    /// The exchange failed for another reason than a timeout.
    Request { reason: String },
    /// Every attempt timed out.
    RequestTimeout,
    /// The API answered with an error payload.
    Response { status: u16, body: String, source: ApiError },
    /// The API answered 503; the body is its maintenance message.
    ServiceUnavailable(String),
    /// The first token could not be acquired.
    UpdateToken { source: Box<OsuError> },
    /// The address of a request is not a URL.
    Url { source: url::ParseError, url: String },
}

/// What an [`OsuError`] says, without the errors of other crates that it
/// carries along.
pub enum ErrorView {
    BuilderMissingId,
    BuilderMissingSecret,
    CreatingTokenHeader,
    ChunkingResponse { reason: Seq<char> },
    NoToken,
    NotFound,
    Parsing { body: Seq<char> },
    ParsingError { status: u16, body: Seq<char> },
    Request { reason: Seq<char> },
    RequestTimeout,
    Response { status: u16, body: Seq<char>, error: Option<Seq<char>> },
    ServiceUnavailable(Seq<char>),
    UpdateToken { source: Box<ErrorView> },
    Url { url: Seq<char> },
}

/// The view of an error; see [`ErrorView`].
pub open spec fn error_view(e: OsuError) -> ErrorView
    decreases e,
{
    match e {
        OsuError::BuilderMissingId => ErrorView::BuilderMissingId,
        OsuError::BuilderMissingSecret => ErrorView::BuilderMissingSecret,
        OsuError::CreatingTokenHeader { .. } => ErrorView::CreatingTokenHeader,
        OsuError::ChunkingResponse { reason } => ErrorView::ChunkingResponse { reason: reason@ },
        OsuError::NoToken => ErrorView::NoToken,
        OsuError::NotFound => ErrorView::NotFound,
        OsuError::Parsing { body, .. } => ErrorView::Parsing { body: body@ },
        OsuError::ParsingError { status, body, .. } => ErrorView::ParsingError {
            status,
            body: body@,
        },
        OsuError::Request { reason } => ErrorView::Request { reason: reason@ },
        OsuError::RequestTimeout => ErrorView::RequestTimeout,
        OsuError::Response { status, body, source } => ErrorView::Response {
            status,
            body: body@,
            error: source@,
        },
        OsuError::ServiceUnavailable(body) => ErrorView::ServiceUnavailable(body@),
        OsuError::UpdateToken { source } => ErrorView::UpdateToken {
            source: Box::new(error_view(*source)),
        },
        OsuError::Url { url, .. } => ErrorView::Url { url: url@ },
    }
}

impl View for OsuError {
    type V = ErrorView;

    open spec fn view(&self) -> ErrorView {
        error_view(*self)
    }
}

} // verus!
