//! The answers of the routes.

pub mod song;
pub mod spotify;

use vstd::prelude::*;
use crate::json::{json_string, lemma_plain_text_unescaped};
use crate::models::{
    envelope, preset_error_bodies_are_envelopes, GenericOutput, INTERNAL_SERVER_ERROR,
    INTERNAL_SERVER_ERROR_MESSAGE, NOT_IMPLEMENTED_RELEASE_MODE,
    NOT_IMPLEMENTED_RELEASE_MODE_MESSAGE, SERDE_ERROR, SERDE_ERROR_MESSAGE, SPOTIFY_API_FORBIDDEN,
    SPOTIFY_API_FORBIDDEN_MESSAGE, SPOTIFY_API_SEARCH_MISSING_FIELDS,
    SPOTIFY_API_SEARCH_MISSING_FIELDS_MESSAGE,
};
use crate::utils::debug::debug_error_text;

verus! {

/// An HTTP answer with a JSON body.
#[derive(Debug, Clone, PartialEq, Eq)]
pub struct Response {
    pub status: u16,
    pub body: String,
}

/// Status codes that an HTTP answer can carry: three decimal digits.
pub open spec fn is_valid_status_code(status_code: u16) -> bool {
    100 <= status_code < 1000
}

/// The message of a failure: with the text of its cause when `detailed`
/// (debug builds), without it otherwise.
pub open spec fn failure_message(detailed: bool, error: Seq<char>, error_text: Seq<char>) -> Seq<char> {
    if detailed {
        debug_error_text(error, error_text)
    } else {
        error_text
    }
}

/// Words the message of a failure as the build in use does.
pub fn format_failure(detailed: bool, error: &str, error_message: &str) -> (s: String)
    ensures
        s@ == failure_message(detailed, error@, error_message@),
{
    if detailed {
        crate::utils::debug::format_error(error, error_message)
    } else {
        crate::utils::release::format_error(error, error_message)
    }
}

/// The successful answer for a payload, given its JSON text; `None` stands
/// for a payload that could not be serialized.
pub fn send_data(data_json: Option<&str>) -> (r: Response)
    ensures
        is_data_response(
            r,
            match data_json {
                Some(d) => Some(d@),
                None => None,
            },
        ),
{
    match data_json {
        Some(d) => {
            let data = GenericOutput::<()> {
                data: Some(()),
                error: None,
                success: true,
                status_code: 200,
            };
            Response { status: 200, body: data.to_json(Some(d)) }
        },
        None => Response { status: 500, body: String::from_str(SERDE_ERROR) },
    }
}

/// The status of the answer for a failure reported with `status_code`.
pub open spec fn error_status(status_code: u16) -> u16 {
    if is_valid_status_code(status_code) {
        status_code
    } else {
        500
    }
}

/// The body of the answer for a failure: the answer with no payload and the
/// message of the failure, or the internal-error body where `status_code`
/// is not a status code.
pub open spec fn error_body(
    detailed: bool,
    error: Seq<char>,
    status_code: u16,
    error_text: Seq<char>,
) -> Seq<char> {
    if is_valid_status_code(status_code) {
        envelope(None, false, status_code, Some(json_string(failure_message(detailed, error, error_text))))
    } else {
        INTERNAL_SERVER_ERROR@
    }
}

/// `r` is the answer for the failure `error`, reported with `status_code`
/// and the message `error_text`.
pub open spec fn is_error_response(
    r: Response,
    detailed: bool,
    error: Seq<char>,
    status_code: u16,
    error_text: Seq<char>,
) -> bool {
    &&& r.status == error_status(status_code)
    &&& r.body@ == error_body(detailed, error, status_code, error_text)
}

/// `r` is the successful answer for a payload whose JSON text is
/// `data_json` (`None`: the payload could not be serialized).
pub open spec fn is_data_response(r: Response, data_json: Option<Seq<char>>) -> bool {
    match data_json {
        Some(d) => r.status == 200 && r.body@ == envelope(Some(d), true, 200, None),
        None => r.status == 500 && r.body@ == SERDE_ERROR@,
    }
}

/// The answer for a failure: `status_code` with the message of the failure,
/// or `500` and the internal-error body where `status_code` is not a status
/// code.
pub fn send_error(detailed: bool, error: &str, status_code: u16, error_text: &str) -> (r: Response)
    ensures
        is_error_response(r, detailed, error@, status_code, error_text@),
{
    if status_code < 100 || status_code >= 1000 {
        return Response { status: 500, body: String::from_str(INTERNAL_SERVER_ERROR) };
    }
    let message = format_failure(detailed, error, error_text);
    let data = GenericOutput::<()> {
        data: None,
        error: Some(message),
        success: false,
        status_code,
    };
    let body = data.to_json(None);
    Response { status: status_code, body }
}

/// The answer of a route that reads something: the payload, given its JSON
/// text, or the failure with the message `error_text` and status `500`.
pub fn send_result(detailed: bool, result: Result<Option<String>, String>, error_text: &str) -> (r:
    Response)
    ensures
        match result {
            Ok(data_json) => is_data_response(
                r,
                match data_json {
                    Some(d) => Some(d@),
                    None => None,
                },
            ),
            Err(e) => is_error_response(r, detailed, e@, 500, error_text@),
        },
{
    match result {
        Ok(Some(d)) => send_data(Some(d.as_str())),
        Ok(None) => send_data(None),
        Err(e) => send_error(detailed, e.as_str(), 500, error_text),
    }
}

/// In release builds, the answer for a failure reported with a preset
/// message and its status code is the preset body, whatever the cause.
pub proof fn release_error_answers_are_preset_bodies(error: Seq<char>)
    ensures
        error_body(false, error, 500, SERDE_ERROR_MESSAGE@) == SERDE_ERROR@,
        error_body(false, error, 501, NOT_IMPLEMENTED_RELEASE_MODE_MESSAGE@)
            == NOT_IMPLEMENTED_RELEASE_MODE@,
        error_body(false, error, 500, INTERNAL_SERVER_ERROR_MESSAGE@) == INTERNAL_SERVER_ERROR@,
        error_body(false, error, 403, SPOTIFY_API_FORBIDDEN_MESSAGE@) == SPOTIFY_API_FORBIDDEN@,
        error_body(false, error, 400, SPOTIFY_API_SEARCH_MISSING_FIELDS_MESSAGE@)
            == SPOTIFY_API_SEARCH_MISSING_FIELDS@,
{
    preset_error_bodies_are_envelopes();
    lemma_plain_text_unescaped(SERDE_ERROR_MESSAGE@);
    lemma_plain_text_unescaped(NOT_IMPLEMENTED_RELEASE_MODE_MESSAGE@);
    lemma_plain_text_unescaped(INTERNAL_SERVER_ERROR_MESSAGE@);
    lemma_plain_text_unescaped(SPOTIFY_API_FORBIDDEN_MESSAGE@);
    lemma_plain_text_unescaped(SPOTIFY_API_SEARCH_MISSING_FIELDS_MESSAGE@);
}

/// An error that is only a message.
#[derive(Debug, Clone, PartialEq, Eq)]
pub struct StringError(pub &'static str);

impl StringError {
    /// The message.
    pub fn to_string(&self) -> (s: String)
        ensures
            s@ == self.0@,
    {
        String::from_str(self.0)
    }
}

} // verus!
