//! What a response means: its body on success, else the error that its
//! status and body stand for.

use crate::error::{ApiError, ErrorView, OsuError};
use crate::foreign::{json_text_member, lossy_string, lossy_text, parse_text_member};
use crate::text::opt_text;
use vstd::prelude::*;

verus! {

/// The error for a response that is neither a success nor one of the
/// statuses with a meaning of their own: the API's error where the body is
/// an error payload (`payload` is `Some` of its message), else the report
/// that the body is none.
pub open spec fn error_response(
    status: u16,
    body: Seq<char>,
    payload: Option<Option<Seq<char>>>,
) -> ErrorView {
    match payload {
        Some(error) => ErrorView::Response { status, body, error },
        None => ErrorView::ParsingError { status, body },
    }
}

/// What a response with this status and body means: 200 gives the body,
/// 404 and 503 have errors of their own, and every other status, 429 among
/// them, gives the error that the body spells out.
pub open spec fn classified(status: u16, body: Seq<u8>) -> Result<Seq<u8>, ErrorView> {
    if status == 200 {
        Ok(body)
    } else if status == 404 {
        Err(ErrorView::NotFound)
    } else if status == 503 {
        Err(ErrorView::ServiceUnavailable(lossy_text(body)))
    } else {
        Err(error_response(status, lossy_text(body), json_text_member(body, "error"@)))
    }
}

/// What a parsed error payload holds, as [`error_response`] takes it.
pub open spec fn payload_view(payload: Result<Option<String>, serde_json::Error>) -> Option<
    Option<Seq<char>>,
> {
    match payload {
        Ok(error) => Some(opt_text(error)),
        Err(_) => None,
    }
}

/// What a classified response holds.
pub open spec fn classified_view(r: Result<Vec<u8>, OsuError>) -> Result<Seq<u8>, ErrorView> {
    match r {
        Ok(body) => Ok(body@),
        Err(e) => Err(e@),
    }
}

/// The error for a response of a status without a meaning of its own,
/// given the text of its body and what parsing the body as an error payload
/// gave.
pub fn response_error(
    status: u16,
    body: String,
    payload: Result<Option<String>, serde_json::Error>,
) -> (e: OsuError)
    ensures
        e@ == error_response(status, body@, payload_view(payload)),
{
    match payload {
        Ok(error) => OsuError::Response { status, body, source: ApiError { error } },
        Err(source) => OsuError::ParsingError { status, body, source },
    }
}

/// Classifies a response by its status and body.
pub fn handle_status(status: u16, bytes: Vec<u8>) -> (r: Result<Vec<u8>, OsuError>)
    ensures
        classified_view(r) == classified(status, bytes@),
{
    if status == 200 {
        return Ok(bytes);
    }
    if status == 404 {
        return Err(OsuError::NotFound);
    }
    let body = lossy_string(bytes.as_slice());
    if status == 503 {
        return Err(OsuError::ServiceUnavailable(body));
    }
    let payload = parse_text_member(bytes.as_slice(), "error");
    Err(response_error(status, body, payload))
}

/// The result of a request whose body was handed to a parser: the parsed
/// value, or the report that the body does not have the expected shape,
/// with the body's text.
pub fn parse_bytes<T>(bytes: Vec<u8>, parsed: Result<T, serde_json::Error>) -> (r: Result<
    T,
    OsuError,
>)
    ensures
        parsed matches Ok(value) ==> r == Ok::<T, OsuError>(value),
        parsed is Err ==> (r matches Err(e) && e@ == (ErrorView::Parsing {
            body: lossy_text(bytes@),
        })),
{
    match parsed {
        Ok(value) => Ok(value),
        Err(source) => Err(OsuError::Parsing { body: lossy_string(bytes.as_slice()), source }),
    }
}

} // verus!
