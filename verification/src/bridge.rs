//! The "create alias" operation around the resolver and the session client:
//! the request body, the order of the checks, and the reply for each failure.

use vstd::prelude::*;
use vstd::string::*;
use crate::alias::{alias_of, rfc3339_of_millis, try_hme_to_alias, Alias};
use crate::icloud::{
    validate_request, DiscoveryGap, HmeEmail, HttpRequest, Session, SessionView, Step,
    UpstreamError,
};
use crate::json::{json_of_text, parse_json, Json};
use crate::resolver::AuthError;
use crate::text::result_text;

verus! {

/// The label under which every alias is reserved.
pub const ALIAS_LABEL: &'static str = "Generated by hme_bridge";

/// The note of an alias whose request names none.
pub const DEFAULT_NOTE: &'static str = "Generated by Bitwarden.";

/// The status of a reply that carries an alias.
pub const STATUS_OK: u16 = 200;

/// Why a request got no alias.
#[derive(Debug, PartialEq, Eq)]
pub enum BridgeError {
    /// The request has no session.
    Auth(AuthError),
    /// The session lacks every cookie that the upstream needs.
    IncompleteCredential,
    /// The body is not an alias-creation request.
    MalformedRequestBody,
    /// The upstream flow failed.
    Upstream(UpstreamError),
    /// The upstream sent a creation time that stands for no date.
    MalformedTimestamp,
}

impl BridgeError {
    /// The HTTP status that goes with this failure.
    pub open spec fn status(self) -> u16 {
        match self {
            BridgeError::Auth(AuthError::Missing) => 401,
            BridgeError::Auth(AuthError::Empty) => 401,
            BridgeError::Auth(AuthError::NoCredentials) => 401,
            BridgeError::Auth(AuthError::StoreUnavailable) => 500,
            BridgeError::Auth(AuthError::BadCredentialsFormat) => 500,
            BridgeError::IncompleteCredential => 500,
            BridgeError::MalformedRequestBody => 400,
            BridgeError::Upstream(_) => 500,
            BridgeError::MalformedTimestamp => 500,
        }
    }

    /// The short message that goes with this failure. An upstream `error`
    /// payload is not part of it.
    pub open spec fn message_text(self) -> Seq<char> {
        match self {
            BridgeError::Auth(AuthError::Missing) => "Authentication header is missing or invalid"@,
            BridgeError::Auth(AuthError::Empty) => "Authentication header is empty"@,
            BridgeError::Auth(AuthError::NoCredentials) => "Invalid credentials"@,
            BridgeError::Auth(AuthError::StoreUnavailable) => "Internal Server Error"@,
            BridgeError::Auth(AuthError::BadCredentialsFormat) => "Invalid credentials format"@,
            BridgeError::IncompleteCredential => "Required cookies not found in stored credential"@,
            BridgeError::MalformedRequestBody => "Bad request"@,
            BridgeError::Upstream(UpstreamError::DiscoveryFailed(DiscoveryGap::ServiceMissing)) =>
                "Internal Server Error: premiummailsettings service not found"@,
            BridgeError::Upstream(UpstreamError::DiscoveryFailed(DiscoveryGap::UrlMissing)) =>
                "Internal Server Error: premiummailsettings URL is null"@,
            BridgeError::Upstream(UpstreamError::Rejected { step: Step::Generate, error: _ }) =>
                "Internal Server Error: Failed to generate HME"@,
            BridgeError::Upstream(UpstreamError::Rejected { step: Step::Reserve, error: _ }) =>
                "Internal Server Error: Failed to reserve HME"@,
            BridgeError::Upstream(UpstreamError::Transport(_)) =>
                "Internal Server Error: upstream request failed"@,
            BridgeError::MalformedTimestamp => "Internal Server Error: malformed timestamp"@,
        }
    }

    /// The HTTP status that goes with this failure.
    pub fn status_code(&self) -> (code: u16)
        ensures
            code == self.status(),
            code == 400 || code == 401 || code == 500,
    {
        match self {
            BridgeError::Auth(AuthError::Missing) => 401,
            BridgeError::Auth(AuthError::Empty) => 401,
            BridgeError::Auth(AuthError::NoCredentials) => 401,
            BridgeError::Auth(AuthError::StoreUnavailable) => 500,
            BridgeError::Auth(AuthError::BadCredentialsFormat) => 500,
            BridgeError::IncompleteCredential => 500,
            BridgeError::MalformedRequestBody => 400,
            BridgeError::Upstream(_) => 500,
            BridgeError::MalformedTimestamp => 500,
        }
    }

    /// The short message that goes with this failure.
    pub fn message(&self) -> (text: String)
        ensures
            text@ == self.message_text(),
    {
        let words = match self {
            BridgeError::Auth(AuthError::Missing) => "Authentication header is missing or invalid",
            BridgeError::Auth(AuthError::Empty) => "Authentication header is empty",
            BridgeError::Auth(AuthError::NoCredentials) => "Invalid credentials",
            BridgeError::Auth(AuthError::StoreUnavailable) => "Internal Server Error",
            BridgeError::Auth(AuthError::BadCredentialsFormat) => "Invalid credentials format",
            BridgeError::IncompleteCredential => "Required cookies not found in stored credential",
            BridgeError::MalformedRequestBody => "Bad request",
            BridgeError::Upstream(UpstreamError::DiscoveryFailed(DiscoveryGap::ServiceMissing)) =>
                "Internal Server Error: premiummailsettings service not found",
            BridgeError::Upstream(UpstreamError::DiscoveryFailed(DiscoveryGap::UrlMissing)) =>
                "Internal Server Error: premiummailsettings URL is null",
            BridgeError::Upstream(UpstreamError::Rejected { step: Step::Generate, error: _ }) =>
                "Internal Server Error: Failed to generate HME",
            BridgeError::Upstream(UpstreamError::Rejected { step: Step::Reserve, error: _ }) =>
                "Internal Server Error: Failed to reserve HME",
            BridgeError::Upstream(UpstreamError::Transport(_)) =>
                "Internal Server Error: upstream request failed",
            BridgeError::MalformedTimestamp => "Internal Server Error: malformed timestamp",
        };
        String::from_str(words)
    }
}

/// The note that an alias-creation request asks for: the body is a JSON
/// object whose `note` is a string, `null` or left out; without a note, the
/// alias gets [`DEFAULT_NOTE`]. `None` stands for a body that is not JSON.
pub open spec fn note_of_document(doc: Option<Json>) -> Result<Seq<char>, BridgeError> {
    match doc {
        None => Err(BridgeError::MalformedRequestBody),
        Some(d) => if d is Object {
            match d.field_optional_text("note"@) {
                Some(Some(note)) => Ok(note),
                Some(None) => Ok(DEFAULT_NOTE@),
                None => Err(BridgeError::MalformedRequestBody),
            }
        } else {
            Err(BridgeError::MalformedRequestBody)
        },
    }
}

/// The note that the body of an alias-creation request asks for.
pub open spec fn note_of_body(body: Seq<char>) -> Result<Seq<char>, BridgeError> {
    note_of_document(json_of_text(body))
}

/// Reads the note out of a parsed alias-creation request.
pub fn note_from_document(doc: Option<Json>) -> (note: Result<String, BridgeError>)
    ensures
        result_text(note) == note_of_document(doc),
{
    match doc {
        Some(d) => match &d {
            Json::Object(_) => match d.optional_text_field("note") {
                Ok(Some(note)) => Ok(note),
                Ok(None) => Ok(String::from_str(DEFAULT_NOTE)),
                Err(_) => Err(BridgeError::MalformedRequestBody),
            },
            _ => Err(BridgeError::MalformedRequestBody),
        },
        None => Err(BridgeError::MalformedRequestBody),
    }
}

/// Reads the note out of the body of an alias-creation request.
pub fn note_from_body(body: &str) -> (note: Result<String, BridgeError>)
    ensures
        result_text(note) == note_of_body(body@),
{
    note_from_document(parse_json(body))
}

/// What opening a reservation comes to: an empty cookie context is an
/// incomplete credential, whatever the body holds; then the body must name a
/// note; then the flow starts under [`ALIAS_LABEL`].
pub open spec fn reservation_start(cookie_header: Seq<char>, note: Result<
    Seq<char>,
    BridgeError,
>) -> Result<SessionView, BridgeError> {
    if cookie_header.len() == 0 {
        Err(BridgeError::IncompleteCredential)
    } else {
        match note {
            Err(e) => Err(e),
            Ok(n) => Ok(SessionView::Validating { cookie: cookie_header, label: ALIAS_LABEL@, note: n }),
        }
    }
}

/// Opens the reservation flow for a resolved cookie context and the body of
/// the request: the session, and the validate request to send first.
pub fn begin_reservation(cookie_header: &str, body: &str) -> (start: Result<
    (Session, HttpRequest),
    BridgeError,
>)
    ensures
        match start {
            Ok((session, request)) => reservation_start(cookie_header@, note_of_body(body@)) == Ok::<
                SessionView,
                BridgeError,
            >(session@) && request@ == validate_request(cookie_header@),
            Err(e) => reservation_start(cookie_header@, note_of_body(body@)) == Err::<
                SessionView,
                BridgeError,
            >(e),
        },
{
    if cookie_header.unicode_len() == 0 {
        return Err(BridgeError::IncompleteCredential);
    }
    match note_from_body(body) {
        Err(e) => Err(e),
        Ok(note) => Ok(Session::begin(cookie_header, ALIAS_LABEL, note.as_str())),
    }
}

/// Turns the end of a reservation flow into the reply: the translated alias,
/// or the failure.
pub fn finish(outcome: Result<HmeEmail, UpstreamError>) -> (reply: Result<Alias, BridgeError>)
    ensures
        match outcome {
            Err(e) => reply == Err::<Alias, BridgeError>(BridgeError::Upstream(e)),
            Ok(hme) => match rfc3339_of_millis(hme.create_timestamp) {
                Some(date) => reply is Ok && reply->Ok_0@ == alias_of(hme@, date),
                None => reply == Err::<Alias, BridgeError>(BridgeError::MalformedTimestamp),
            },
        },
{
    match outcome {
        Err(e) => Err(BridgeError::Upstream(e)),
        Ok(hme) => match try_hme_to_alias(hme) {
            Some(alias) => Ok(alias),
            None => Err(BridgeError::MalformedTimestamp),
        },
    }
}

/// The HTTP status of a reply.
pub fn reply_status(reply: &Result<Alias, BridgeError>) -> (code: u16)
    ensures
        code == match reply {
            Ok(_) => STATUS_OK,
            Err(e) => e.status(),
        },
{
    match reply {
        Ok(_) => STATUS_OK,
        Err(e) => e.status_code(),
    }
}

} // verus!
