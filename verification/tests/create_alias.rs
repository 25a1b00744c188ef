use hme_bridge::alias::Alias;
use hme_bridge::bridge::{
    begin_reservation, finish, note_from_body, note_from_document, reply_status, BridgeError,
    ALIAS_LABEL, DEFAULT_NOTE, STATUS_OK,
};
use hme_bridge::icloud::{
    DiscoveryGap, HmeEmail, HttpOutcome, Progress, RequestBody, Session, Step, TransportFailure,
    UpstreamError,
};
use hme_bridge::json::{parse_json, Json};
use hme_bridge::resolver::{AuthError, AuthHeaders, Resolution, Resolver, StoreRead};

const STORED: &str = "[{\"label\":\"me\",\"token\":\"abc123\",\"cookie\":\"[\
    {\\\"name\\\":\\\"X-APPLE-DS-WEB-SESSION-TOKEN\\\",\\\"value\\\":\\\"s\\\"},\
    {\\\"name\\\":\\\"X-APPLE-WEBAUTH-TOKEN\\\",\\\"value\\\":\\\"t\\\"},\
    {\\\"name\\\":\\\"X-APPLE-WEBAUTH-USER\\\",\\\"value\\\":\\\"u\\\"}]\"}]";
const CONTEXT: &str =
    "X-APPLE-DS-WEB-SESSION-TOKEN=s; X-APPLE-WEBAUTH-TOKEN=t; X-APPLE-WEBAUTH-USER=u";

fn upstream_answer(url: &str, body: &RequestBody) -> HttpOutcome {
    let text = match body {
        RequestBody::Empty => {
            assert_eq!(url, "https://setup.icloud.com/setup/ws/1/validate");
            "{\"webservices\":{\"premiummailsettings\":{\"url\":\"https://hme.example\"}}}".to_string()
        }
        RequestBody::Generate { lang_code } => {
            assert_eq!(url, "https://hme.example/v1/hme/generate");
            assert_eq!(lang_code, "en-us");
            "{\"success\":true,\"result\":{\"hme\":\"new.alias@icloud.com\"}}".to_string()
        }
        RequestBody::Reserve { hme, label, note } => {
            assert_eq!(url, "https://hme.example/v1/hme/reserve");
            format!(
                "{{\"success\":true,\"result\":{{\"hme\":{{\"forwardToEmail\":\"me@example.com\",\
                 \"hme\":\"{}\",\"isActive\":true,\"label\":\"{}\",\"note\":\"{}\",\
                 \"createTimestamp\":1700000000000}}}}}}",
                hme, label, note
            )
        }
    };
    HttpOutcome::Response { status: 200, body: text }
}

fn create_alias(
    headers: AuthHeaders,
    stored: Option<&str>,
    body: &str,
) -> (Result<Alias, BridgeError>, usize, usize) {
    let mut store_reads = 0;
    let mut upstream_calls = 0;
    let mut resolution = Resolver::begin(headers);
    let context = loop {
        match resolution {
            Resolution::Resolved(context) => break context,
            Resolution::Failed(e) => return (Err(BridgeError::Auth(e)), store_reads, upstream_calls),
            Resolution::ReadStore(resolver) => {
                store_reads += 1;
                let read = match stored {
                    Some(text) => StoreRead::Text(text.to_string()),
                    None => StoreRead::Nothing,
                };
                resolution = resolver.advance(read);
            }
        }
    };
    let (mut session, mut request) = match begin_reservation(&context, body) {
        Ok(start) => start,
        Err(e) => return (Err(e), store_reads, upstream_calls),
    };
    loop {
        upstream_calls += 1;
        assert_eq!(request.headers[0].name, "Cookie");
        assert_eq!(request.headers[0].value, context);
        match session.advance(upstream_answer(&request.url, &request.body)) {
            Progress::Continue { session: next, request: then } => {
                session = next;
                request = then;
            }
            Progress::Finished(outcome) => return (finish(outcome), store_reads, upstream_calls),
        }
    }
}

fn request_headers(authorization: Option<&str>, authentication: Option<&str>) -> AuthHeaders {
    AuthHeaders {
        authorization: authorization.map(|s| s.to_string()),
        authentication: authentication.map(|s| s.to_string()),
    }
}

#[test]
fn labels_and_notes_are_fixed() {
    assert_eq!(ALIAS_LABEL, "Generated by hme_bridge");
    assert_eq!(DEFAULT_NOTE, "Generated by Bitwarden.");
    assert_eq!(STATUS_OK, 200);
}

#[test]
fn bearer_request_creates_an_alias() {
    let (reply, store_reads, upstream_calls) =
        create_alias(request_headers(Some("Bearer abc123"), None), Some(STORED), "{\"note\":\"test\"}");
    assert_eq!(reply_status(&reply), 200);
    let alias = reply.unwrap();
    assert_eq!(alias.note, Some("test".to_string()));
    assert!(alias.enabled);
    assert_eq!(alias.name, Some("Generated by hme_bridge".to_string()));
    assert_eq!(alias.alias, "new.alias@icloud.com");
    assert_eq!(alias.creation_date, "2023-11-14T22:13:20+00:00");
    assert_eq!(alias.mailboxes.len(), 1);
    assert_eq!(alias.mailboxes[0].email, "me@example.com");
    assert_eq!(store_reads, 1);
    assert_eq!(upstream_calls, 3);
}

#[test]
fn direct_token_request_creates_an_alias() {
    let (reply, store_reads, upstream_calls) =
        create_alias(request_headers(None, Some("abc123")), Some(STORED), "{}");
    let alias = reply.unwrap();
    assert_eq!(alias.note, Some("Generated by Bitwarden.".to_string()));
    assert_eq!(store_reads, 1);
    assert_eq!(upstream_calls, 3);
}

#[test]
fn request_without_auth_headers_is_401() {
    let (reply, store_reads, upstream_calls) =
        create_alias(request_headers(None, None), Some(STORED), "{\"note\":\"test\"}");
    assert_eq!(reply, Err(BridgeError::Auth(AuthError::Missing)));
    assert_eq!(reply_status(&reply), 401);
    assert_eq!(store_reads, 0);
    assert_eq!(upstream_calls, 0);
}

#[test]
fn request_with_an_empty_direct_header_is_401_without_a_store_read() {
    let (reply, store_reads, upstream_calls) =
        create_alias(request_headers(None, Some("")), Some(STORED), "{}");
    assert_eq!(reply, Err(BridgeError::Auth(AuthError::Empty)));
    assert_eq!(reply_status(&reply), 401);
    assert_eq!(store_reads, 0);
    assert_eq!(upstream_calls, 0);
}

#[test]
fn request_with_an_unknown_token_falls_through_to_401() {
    let (reply, store_reads, _) =
        create_alias(request_headers(Some("Bearer nobody"), None), Some(STORED), "{}");
    assert_eq!(reply, Err(BridgeError::Auth(AuthError::Missing)));
    assert_eq!(store_reads, 1);
    let (reply, store_reads, _) =
        create_alias(request_headers(Some("Bearer nobody"), Some("abc123")), Some(STORED), "{}");
    assert!(reply.is_ok());
    assert_eq!(store_reads, 2);
}

#[test]
fn session_without_required_cookies_is_500() {
    let (reply, _, upstream_calls) = create_alias(
        request_headers(None, Some("[{\"name\":\"other\",\"value\":\"1\"}]")),
        None,
        "{\"note\":\"test\"}",
    );
    assert_eq!(reply, Err(BridgeError::IncompleteCredential));
    assert_eq!(reply_status(&reply), 500);
    assert_eq!(upstream_calls, 0);
}

#[test]
fn incomplete_credential_comes_before_a_bad_body() {
    assert_eq!(begin_reservation("", "not json"), Err(BridgeError::IncompleteCredential));
    assert_eq!(begin_reservation("a=b", "not json"), Err(BridgeError::MalformedRequestBody));
}

#[test]
fn begin_reservation_starts_the_flow_under_the_fixed_label() {
    let (session, request) = begin_reservation(CONTEXT, "{\"note\":\"n1\"}").unwrap();
    assert_eq!(
        session,
        Session::Validating {
            cookie: CONTEXT.to_string(),
            label: "Generated by hme_bridge".to_string(),
            note: "n1".to_string(),
        }
    );
    assert_eq!(request.url, "https://setup.icloud.com/setup/ws/1/validate");
    assert_eq!(request.body, RequestBody::Empty);
}

#[test]
fn note_defaults_where_the_body_names_none() {
    assert_eq!(note_from_body("{}"), Ok("Generated by Bitwarden.".to_string()));
    assert_eq!(note_from_body("{\"note\":null}"), Ok("Generated by Bitwarden.".to_string()));
    assert_eq!(note_from_body("{\"other\":1}"), Ok("Generated by Bitwarden.".to_string()));
    assert_eq!(note_from_body("{\"note\":\"mine\"}"), Ok("mine".to_string()));
    assert_eq!(note_from_body("{\"note\":\"\"}"), Ok(String::new()));
}

#[test]
fn malformed_body_is_400() {
    for body in ["", "note", "[]", "null", "\"note\"", "{\"note\":5}", "{\"note\":[\"a\"]}", "{\"note\":"] {
        let note = note_from_body(body);
        assert_eq!(note, Err(BridgeError::MalformedRequestBody), "{}", body);
    }
    assert_eq!(BridgeError::MalformedRequestBody.status_code(), 400);
    assert_eq!(note_from_document(None), Err(BridgeError::MalformedRequestBody));
    assert_eq!(note_from_document(Some(Json::Array(vec![]))), Err(BridgeError::MalformedRequestBody));
    assert_eq!(note_from_document(parse_json("{\"note\":\"x\"}")), Ok("x".to_string()));
}

#[test]
fn finish_wraps_an_upstream_failure() {
    let error = UpstreamError::Rejected { step: Step::Reserve, error: Some(Json::Bool(false)) };
    let reply = finish(Err(error));
    assert_eq!(
        reply,
        Err(BridgeError::Upstream(UpstreamError::Rejected {
            step: Step::Reserve,
            error: Some(Json::Bool(false)),
        }))
    );
    assert_eq!(reply_status(&reply), 500);
}

#[test]
fn finish_reports_a_time_that_is_no_date() {
    let record = HmeEmail {
        forward_to_email: None,
        hme: "a@icloud.com".to_string(),
        is_active: true,
        label: "l".to_string(),
        note: "n".to_string(),
        create_timestamp: i64::MAX,
    };
    let reply = finish(Ok(record));
    assert_eq!(reply, Err(BridgeError::MalformedTimestamp));
    assert_eq!(reply_status(&reply), 500);
}

#[test]
fn every_failure_has_its_status_and_message() {
    let cases: Vec<(BridgeError, u16, &str)> = vec![
        (BridgeError::Auth(AuthError::Missing), 401, "Authentication header is missing or invalid"),
        (BridgeError::Auth(AuthError::Empty), 401, "Authentication header is empty"),
        (BridgeError::Auth(AuthError::NoCredentials), 401, "Invalid credentials"),
        (BridgeError::Auth(AuthError::StoreUnavailable), 500, "Internal Server Error"),
        (BridgeError::Auth(AuthError::BadCredentialsFormat), 500, "Invalid credentials format"),
        (
            BridgeError::IncompleteCredential,
            500,
            "Required cookies not found in stored credential",
        ),
        (BridgeError::MalformedRequestBody, 400, "Bad request"),
        (
            BridgeError::Upstream(UpstreamError::DiscoveryFailed(DiscoveryGap::ServiceMissing)),
            500,
            "Internal Server Error: premiummailsettings service not found",
        ),
        (
            BridgeError::Upstream(UpstreamError::DiscoveryFailed(DiscoveryGap::UrlMissing)),
            500,
            "Internal Server Error: premiummailsettings URL is null",
        ),
        (
            BridgeError::Upstream(UpstreamError::Rejected { step: Step::Generate, error: None }),
            500,
            "Internal Server Error: Failed to generate HME",
        ),
        (
            BridgeError::Upstream(UpstreamError::Rejected {
                step: Step::Reserve,
                error: Some(Json::Null),
            }),
            500,
            "Internal Server Error: Failed to reserve HME",
        ),
        (
            BridgeError::Upstream(UpstreamError::Transport(TransportFailure::Status(503))),
            500,
            "Internal Server Error: upstream request failed",
        ),
        (BridgeError::MalformedTimestamp, 500, "Internal Server Error: malformed timestamp"),
    ];
    for (error, status, message) in cases {
        assert_eq!(error.status_code(), status, "{:?}", error);
        assert_eq!(error.message(), message, "{:?}", error);
    }
}
