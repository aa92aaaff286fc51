pub mod action;
pub mod room;
pub mod room_token;
pub mod song;
pub mod spotify_api;
pub mod spotify_id;

use vstd::prelude::*;
use crate::json::{encode_json_string, is_plain_json_text, json_string, quoted};
use crate::text::{decimal, push_decimal};

verus! {

/// What every JSON answer of the server holds: the payload (or `null`), a
/// success flag, the HTTP status code and an error message (or `null`).
#[derive(Debug, Clone, PartialEq, Eq, PartialOrd, Ord)]
pub struct GenericOutput<T> {
    pub data: Option<T>,
    pub success: bool,
    pub status_code: u16,
    pub error: Option<String>,
}

/// JSON text of an optional value that is already JSON: the value, or `null`.
pub open spec fn json_or_null(v: Option<Seq<char>>) -> Seq<char> {
    match v {
        Some(t) => t,
        None => "null"@,
    }
}

/// JSON text of a boolean.
pub open spec fn json_bool(b: bool) -> Seq<char> {
    if b {
        "true"@
    } else {
        "false"@
    }
}

/// The JSON object of an answer, fields in declaration order, with the
/// payload and the error message given as JSON text.
pub open spec fn envelope(
    data: Option<Seq<char>>,
    success: bool,
    status_code: u16,
    error: Option<Seq<char>>,
) -> Seq<char> {
    "{\"data\":"@ + json_or_null(data) + ",\"success\":"@ + json_bool(success)
        + ",\"status_code\":"@ + decimal(status_code as nat) + ",\"error\":"@
        + json_or_null(error) + "}"@
}

/// The JSON string literal of an optional message.
pub open spec fn json_message(error: Option<String>) -> Option<Seq<char>> {
    match error {
        Some(e) => Some(json_string(e@)),
        None => None,
    }
}

/// The body of an error answer whose message is plain text.
pub open spec fn error_envelope(status_code: u16, message: Seq<char>) -> Seq<char> {
    envelope(None, false, status_code, Some(quoted(message)))
}

impl<T> GenericOutput<T> {
    /// The JSON text of this answer, given the JSON text of its payload.
    pub fn to_json(&self, data_json: Option<&str>) -> (s: String)
        requires
            data_json is Some == self.data is Some,
        ensures
            s@ == envelope(
                match data_json {
                    Some(d) => Some(d@),
                    None => None,
                },
                self.success,
                self.status_code,
                json_message(self.error),
            ),
    {
        let mut s = String::from_str("{\"data\":");
        match data_json {
            Some(d) => s.append(d),
            None => s.append("null"),
        }
        s.append(",\"success\":");
        if self.success {
            s.append("true");
        } else {
            s.append("false");
        }
        s.append(",\"status_code\":");
        push_decimal(&mut s, self.status_code as u64);
        s.append(",\"error\":");
        match &self.error {
            Some(e) => {
                let t = encode_json_string(e.as_str());
                s.append(t.as_str());
            },
            None => s.append("null"),
        }
        s.append("}");
        s
    }
}

/// Message of the answer sent when an answer cannot be serialized.
pub const SERDE_ERROR_MESSAGE: &'static str = "JSON: Error converting to string";

/// Message of the answer sent for routes that only exist in debug builds.
pub const NOT_IMPLEMENTED_RELEASE_MODE_MESSAGE: &'static str = "Not implemented in release mode";

/// Message of the answer sent on an internal failure.
pub const INTERNAL_SERVER_ERROR_MESSAGE: &'static str = "INTERNAL_SERVER_ERROR";

/// Message of the answer sent when Spotify refuses a non-premium account.
pub const SPOTIFY_API_FORBIDDEN_MESSAGE: &'static str = "Non-premium accounts can't access Spotify API";

/// Message of the answer sent when a search request lacks fields.
pub const SPOTIFY_API_SEARCH_MISSING_FIELDS_MESSAGE: &'static str = "There are missing fields";

/// status_code: `500`
pub const SERDE_ERROR: &'static str =
    "{\"data\":null,\"success\":false,\"status_code\":500,\"error\":\"JSON: Error converting to string\"}";

/// status_code: `501`
pub const NOT_IMPLEMENTED_RELEASE_MODE: &'static str =
    "{\"data\":null,\"success\":false,\"status_code\":501,\"error\":\"Not implemented in release mode\"}";

/// status_code: `500`
pub const INTERNAL_SERVER_ERROR: &'static str =
    "{\"data\":null,\"success\":false,\"status_code\":500,\"error\":\"INTERNAL_SERVER_ERROR\"}";

/// status_code: `403`
pub const SPOTIFY_API_FORBIDDEN: &'static str =
    "{\"data\":null,\"success\":false,\"status_code\":403,\"error\":\"Non-premium accounts can't access Spotify API\"}";

/// status_code: `400`
pub const SPOTIFY_API_SEARCH_MISSING_FIELDS: &'static str =
    "{\"data\":null,\"success\":false,\"status_code\":400,\"error\":\"There are missing fields\"}";

/// Each preset error body is the answer, as `GenericOutput::to_json`
/// writes it, with no payload, `success` false, its status code and its
/// message; and each message is plain text, so it is written between
/// double quotes as it stands.
pub proof fn preset_error_bodies_are_envelopes()
    ensures
        is_plain_json_text(SERDE_ERROR_MESSAGE@),
        SERDE_ERROR@ == error_envelope(500, SERDE_ERROR_MESSAGE@),
        is_plain_json_text(NOT_IMPLEMENTED_RELEASE_MODE_MESSAGE@),
        NOT_IMPLEMENTED_RELEASE_MODE@ == error_envelope(501, NOT_IMPLEMENTED_RELEASE_MODE_MESSAGE@),
        is_plain_json_text(INTERNAL_SERVER_ERROR_MESSAGE@),
        INTERNAL_SERVER_ERROR@ == error_envelope(500, INTERNAL_SERVER_ERROR_MESSAGE@),
        is_plain_json_text(SPOTIFY_API_FORBIDDEN_MESSAGE@),
        SPOTIFY_API_FORBIDDEN@ == error_envelope(403, SPOTIFY_API_FORBIDDEN_MESSAGE@),
        is_plain_json_text(SPOTIFY_API_SEARCH_MISSING_FIELDS_MESSAGE@),
        SPOTIFY_API_SEARCH_MISSING_FIELDS@ == error_envelope(
            400,
            SPOTIFY_API_SEARCH_MISSING_FIELDS_MESSAGE@,
        ),
{
    reveal_with_fuel(decimal, 4);
    reveal_strlit("{\"data\":");
    reveal_strlit("null");
    reveal_strlit(",\"success\":");
    reveal_strlit("false");
    reveal_strlit(",\"status_code\":");
    reveal_strlit(",\"error\":");
    reveal_strlit("}");
    reveal_strlit("JSON: Error converting to string");
    reveal_strlit("Not implemented in release mode");
    reveal_strlit("INTERNAL_SERVER_ERROR");
    reveal_strlit("Non-premium accounts can't access Spotify API");
    reveal_strlit("There are missing fields");
    reveal_strlit(
        "{\"data\":null,\"success\":false,\"status_code\":500,\"error\":\"JSON: Error converting to string\"}",
    );
    reveal_strlit(
        "{\"data\":null,\"success\":false,\"status_code\":501,\"error\":\"Not implemented in release mode\"}",
    );
    reveal_strlit(
        "{\"data\":null,\"success\":false,\"status_code\":500,\"error\":\"INTERNAL_SERVER_ERROR\"}",
    );
    reveal_strlit(
        "{\"data\":null,\"success\":false,\"status_code\":403,\"error\":\"Non-premium accounts can't access Spotify API\"}",
    );
    reveal_strlit(
        "{\"data\":null,\"success\":false,\"status_code\":400,\"error\":\"There are missing fields\"}",
    );
    assert(decimal(500) =~= seq!['5', '0', '0']);
    assert(decimal(501) =~= seq!['5', '0', '1']);
    assert(decimal(403) =~= seq!['4', '0', '3']);
    assert(decimal(400) =~= seq!['4', '0', '0']);
    assert(SERDE_ERROR@ =~= error_envelope(500, SERDE_ERROR_MESSAGE@));
    assert(NOT_IMPLEMENTED_RELEASE_MODE@ =~= error_envelope(501, NOT_IMPLEMENTED_RELEASE_MODE_MESSAGE@));
    assert(INTERNAL_SERVER_ERROR@ =~= error_envelope(500, INTERNAL_SERVER_ERROR_MESSAGE@));
    assert(SPOTIFY_API_FORBIDDEN@ =~= error_envelope(403, SPOTIFY_API_FORBIDDEN_MESSAGE@));
    assert(SPOTIFY_API_SEARCH_MISSING_FIELDS@ =~= error_envelope(
        400,
        SPOTIFY_API_SEARCH_MISSING_FIELDS_MESSAGE@,
    ));
}

} // verus!
