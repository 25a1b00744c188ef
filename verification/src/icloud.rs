//! The upstream session client: the validate, generate and reserve calls as a
//! state machine over HTTP exchanges that the caller performs.

use vstd::prelude::*;
use vstd::string::*;
use crate::json::{
    find_member, is_object_of, json_of_text, member_value, parse_json, text_member, Json, Member,
};
use crate::text::{optional_text, result_text};

verus! {

/// Where every session is validated.
pub const VALIDATE_URL: &'static str = "https://setup.icloud.com/setup/ws/1/validate";

/// The path, below the discovered base URL, that mints an alias handle.
pub const GENERATE_PATH: &'static str = "/v1/hme/generate";

/// The path, below the discovered base URL, that reserves a minted handle.
pub const RESERVE_PATH: &'static str = "/v1/hme/reserve";

/// The service whose URL the validate call must disclose.
pub const MAIL_SETTINGS_SERVICE: &'static str = "premiummailsettings";

/// The build and mastering number the bridge presents.
pub const CLIENT_BUILD: &'static str = "2420Hotfix12";

/// The language code sent with a generate call.
pub const LANG_CODE: &'static str = "en-us";

/// The origin of the web client that the bridge stands in for.
pub const ORIGIN: &'static str = "https://www.icloud.com";

/// The referer that goes with [`ORIGIN`].
pub const REFERER: &'static str = "https://www.icloud.com/";

/// Every body, sent or received, is JSON.
pub const CONTENT_TYPE: &'static str = "application/json";

/// The upstream turns away requests that do not look like browser traffic.
pub const USER_AGENT: &'static str =
    "Mozilla/5.0 (X11; Linux x86_64) AppleWebKit/537.36 (KHTML, like Gecko) Chrome/139.0.0.0 Safari/537.36";

/// A reserved alias as the upstream reports it.
#[derive(Debug, PartialEq, Eq)]
pub struct HmeEmail {
    pub forward_to_email: Option<String>,
    pub hme: String,
    pub is_active: bool,
    pub label: String,
    pub note: String,
    pub create_timestamp: i64,
}

/// What an [`HmeEmail`] holds.
pub struct HmeEmailView {
    pub forward_to_email: Option<Seq<char>>,
    pub hme: Seq<char>,
    pub is_active: bool,
    pub label: Seq<char>,
    pub note: Seq<char>,
    pub create_timestamp: i64,
}

impl View for HmeEmail {
    type V = HmeEmailView;

    open spec fn view(&self) -> HmeEmailView {
        HmeEmailView {
            forward_to_email: optional_text(self.forward_to_email),
            hme: self.hme@,
            is_active: self.is_active,
            label: self.label@,
            note: self.note@,
            create_timestamp: self.create_timestamp,
        }
    }
}

/// The alias record that a JSON object describes: `hme`, `label` and `note`
/// are strings, `isActive` is a boolean, `createTimestamp` an integer, and
/// `forwardToEmail` a string that may be `null` or left out.
pub open spec fn hme_email_of(doc: Json) -> Option<HmeEmailView> {
    match (
        doc.field_optional_text("forwardToEmail"@),
        doc.field_text("hme"@),
        doc.field_bool("isActive"@),
        doc.field_text("label"@),
        doc.field_text("note"@),
        doc.field_integer("createTimestamp"@),
    ) {
        (Some(forward), Some(hme), Some(active), Some(label), Some(note), Some(created)) => Some(
            HmeEmailView {
                forward_to_email: forward,
                hme,
                is_active: active,
                label,
                note,
                create_timestamp: created,
            },
        ),
        _ => None,
    }
}

/// What an optional alias record holds.
pub open spec fn optional_hme_email(record: Option<HmeEmail>) -> Option<HmeEmailView> {
    match record {
        Some(r) => Some(r@),
        None => None,
    }
}

/// Reads an alias record out of a JSON object.
pub fn decode_hme_email(doc: &Json) -> (record: Option<HmeEmail>)
    ensures
        optional_hme_email(record) == hme_email_of(*doc),
{
    let forward = match doc.optional_text_field("forwardToEmail") {
        Ok(f) => f,
        Err(_) => { return None; },
    };
    let hme = match doc.text_field("hme") {
        Some(h) => h,
        None => { return None; },
    };
    let active = match doc.bool_field("isActive") {
        Some(a) => a,
        None => { return None; },
    };
    let label = match doc.text_field("label") {
        Some(l) => l,
        None => { return None; },
    };
    let note = match doc.text_field("note") {
        Some(n) => n,
        None => { return None; },
    };
    let created = match doc.integer_field("createTimestamp") {
        Some(c) => c,
        None => { return None; },
    };
    Some(
        HmeEmail {
            forward_to_email: forward,
            hme,
            is_active: active,
            label,
            note,
            create_timestamp: created,
        },
    )
}

/// The call of the protocol that an upstream answer belongs to.
#[derive(Debug, Clone, Copy, PartialEq, Eq, Structural)]
pub enum Step {
    Generate,
    Reserve,
}

/// Why an exchange with the upstream gave nothing to read.
#[derive(Debug, Clone, Copy, PartialEq, Eq, Structural)]
pub enum TransportFailure {
    /// The request could not be carried out.
    Unreachable,
    /// The upstream answered with a status outside 200..=299.
    Status(u16),
    /// The body is not JSON, or not of the shape the call answers with.
    Unreadable,
}

/// What the validate answer lacks.
#[derive(Debug, Clone, Copy, PartialEq, Eq, Structural)]
pub enum DiscoveryGap {
    /// No service is registered under [`MAIL_SETTINGS_SERVICE`].
    ServiceMissing,
    /// The service is registered without a URL.
    UrlMissing,
}

/// Why a reservation flow ended without an alias.
#[derive(Debug, PartialEq, Eq)]
pub enum UpstreamError {
    /// Network or parse failure; nothing is retried.
    Transport(TransportFailure),
    /// The session is not entitled to the alias feature.
    DiscoveryFailed(DiscoveryGap),
    /// The upstream reported `success: false`; `error` is its payload as sent.
    Rejected { step: Step, error: Option<Json> },
}

/// A service record: an object whose `url` is a string, `null`, or left out.
pub open spec fn is_service_record(record: Json) -> bool {
    record is Object && record.field_optional_text("url"@) is Some
}

/// The services that a validate answer lists: the members of its
/// `webservices` object, where each of them is a service record.
pub open spec fn services_of(doc: Json) -> Option<Seq<Member>> {
    match doc.field_value("webservices"@) {
        Some(Json::Object(members)) => if forall|i: int|
            0 <= i < members@.len() ==> is_service_record(#[trigger] members@[i].value) {
            Some(members@)
        } else {
            None
        },
        _ => None,
    }
}

/// The base URL that a validate answer discloses for the alias service.
pub open spec fn discovered_base_url(doc: Json) -> Result<Seq<char>, UpstreamError> {
    match services_of(doc) {
        None => Err(UpstreamError::Transport(TransportFailure::Unreadable)),
        Some(services) => match member_value(services, MAIL_SETTINGS_SERVICE@) {
            None => Err(UpstreamError::DiscoveryFailed(DiscoveryGap::ServiceMissing)),
            Some(record) => match record.field_optional_text("url"@) {
                Some(Some(url)) => Ok(url),
                _ => Err(UpstreamError::DiscoveryFailed(DiscoveryGap::UrlMissing)),
            },
        },
    }
}

fn is_service(record: &Json) -> (ok: bool)
    ensures
        ok == is_service_record(*record),
{
    match record {
        Json::Object(_) => record.optional_text_field("url").is_ok(),
        _ => false,
    }
}

/// Reads the alias service's base URL out of a validate answer.
pub fn discover_base_url(doc: &Json) -> (base: Result<String, UpstreamError>)
    ensures
        result_text(base) == discovered_base_url(*doc),
{
    let services = match doc.field("webservices") {
        Some(Json::Object(members)) => members,
        _ => { return Err(UpstreamError::Transport(TransportFailure::Unreadable)); },
    };
    let mut i: usize = 0;
    while i < services.len()
        invariant
            doc.field_value("webservices"@) == Some(Json::Object(*services)),
            i <= services@.len(),
            forall|k: int| 0 <= k < i ==> is_service_record(#[trigger] services@[k].value),
        decreases services@.len() - i,
    {
        if !is_service(&services[i].value) {
            return Err(UpstreamError::Transport(TransportFailure::Unreadable));
        }
        i += 1;
    }
    match find_member(services, MAIL_SETTINGS_SERVICE) {
        None => Err(UpstreamError::DiscoveryFailed(DiscoveryGap::ServiceMissing)),
        Some(record) => match record.optional_text_field("url") {
            Ok(Some(url)) => Ok(url),
            _ => Err(UpstreamError::DiscoveryFailed(DiscoveryGap::UrlMissing)),
        },
    }
}

/// The three things an answer of the generate or reserve call can be.
#[derive(Debug, PartialEq, Eq)]
pub enum Envelope {
    /// Not an object with a boolean `success`, or accepted without a `result`.
    Malformed,
    /// `success` is `false`; the `error` payload, where one was sent.
    Rejected(Option<Json>),
    /// `success` is `true`; the `result`.
    Accepted(Json),
}

/// The `error` payload of an envelope: `null` counts as none.
pub open spec fn error_payload(doc: Json) -> Option<Json> {
    match doc.field_value("error"@) {
        None => None,
        Some(Json::Null) => None,
        Some(e) => Some(e),
    }
}

/// How the envelope `{ success, result, error }` is read. `success` decides
/// first: a rejected envelope needs no `result`.
pub open spec fn envelope_of(doc: Json) -> Envelope {
    match doc.field_bool("success"@) {
        None => Envelope::Malformed,
        Some(false) => Envelope::Rejected(error_payload(doc)),
        Some(true) => match doc.field_value("result"@) {
            Some(r) => Envelope::Accepted(r),
            None => Envelope::Malformed,
        },
    }
}

/// Opens the envelope of a generate or reserve answer.
pub fn open_envelope(doc: Json) -> (envelope: Envelope)
    ensures
        envelope == envelope_of(doc),
{
    match doc.bool_field("success") {
        None => Envelope::Malformed,
        Some(false) => match doc.take_field("error") {
            None => Envelope::Rejected(None),
            Some(Json::Null) => Envelope::Rejected(None),
            Some(e) => Envelope::Rejected(Some(e)),
        },
        Some(true) => match doc.take_field("result") {
            Some(r) => Envelope::Accepted(r),
            None => Envelope::Malformed,
        },
    }
}

/// The alias handle that a generate answer carries.
pub open spec fn generated_handle(doc: Json) -> Result<Seq<char>, UpstreamError> {
    match envelope_of(doc) {
        Envelope::Malformed => Err(UpstreamError::Transport(TransportFailure::Unreadable)),
        Envelope::Rejected(error) => Err(UpstreamError::Rejected { step: Step::Generate, error }),
        Envelope::Accepted(result) => match result.field_text("hme"@) {
            Some(handle) => Ok(handle),
            None => Err(UpstreamError::Transport(TransportFailure::Unreadable)),
        },
    }
}

/// Reads the alias handle out of a generate answer.
pub fn read_generated_handle(doc: Json) -> (handle: Result<String, UpstreamError>)
    ensures
        result_text(handle) == generated_handle(doc),
{
    match open_envelope(doc) {
        Envelope::Malformed => Err(UpstreamError::Transport(TransportFailure::Unreadable)),
        Envelope::Rejected(error) => Err(UpstreamError::Rejected { step: Step::Generate, error }),
        Envelope::Accepted(result) => match result.text_field("hme") {
            Some(handle) => Ok(handle),
            None => Err(UpstreamError::Transport(TransportFailure::Unreadable)),
        },
    }
}

/// The alias record that a reserve answer carries.
pub open spec fn reserved_alias(doc: Json) -> Result<HmeEmailView, UpstreamError> {
    match envelope_of(doc) {
        Envelope::Malformed => Err(UpstreamError::Transport(TransportFailure::Unreadable)),
        Envelope::Rejected(error) => Err(UpstreamError::Rejected { step: Step::Reserve, error }),
        Envelope::Accepted(result) => match result.field_value("hme"@) {
            Some(record) => match hme_email_of(record) {
                Some(alias) => Ok(alias),
                None => Err(UpstreamError::Transport(TransportFailure::Unreadable)),
            },
            None => Err(UpstreamError::Transport(TransportFailure::Unreadable)),
        },
    }
}

/// What an alias result holds.
pub open spec fn alias_result(
    result: Result<HmeEmail, UpstreamError>,
) -> Result<HmeEmailView, UpstreamError> {
    match result {
        Ok(alias) => Ok(alias@),
        Err(e) => Err(e),
    }
}

/// Reads the reserved alias out of a reserve answer.
pub fn read_reserved_alias(doc: Json) -> (alias: Result<HmeEmail, UpstreamError>)
    ensures
        alias_result(alias) == reserved_alias(doc),
{
    match open_envelope(doc) {
        Envelope::Malformed => Err(UpstreamError::Transport(TransportFailure::Unreadable)),
        Envelope::Rejected(error) => Err(UpstreamError::Rejected { step: Step::Reserve, error }),
        Envelope::Accepted(result) => match result.field("hme") {
            Some(record) => match decode_hme_email(record) {
                Some(alias) => Ok(alias),
                None => Err(UpstreamError::Transport(TransportFailure::Unreadable)),
            },
            None => Err(UpstreamError::Transport(TransportFailure::Unreadable)),
        },
    }
}

/// A request header or a query parameter.
#[derive(Debug, PartialEq, Eq)]
pub struct Field {
    pub name: String,
    pub value: String,
}

impl View for Field {
    type V = (Seq<char>, Seq<char>);

    open spec fn view(&self) -> (Seq<char>, Seq<char>) {
        (self.name@, self.value@)
    }
}

/// What a list of fields holds, in order.
pub open spec fn fields_view(fields: Seq<Field>) -> Seq<(Seq<char>, Seq<char>)> {
    fields.map_values(|f: Field| f@)
}

/// The JSON body of a request, by its members.
#[derive(Debug, PartialEq, Eq)]
pub enum RequestBody {
    /// No body: the validate call.
    Empty,
    /// `{ "langCode": .. }`
    Generate { lang_code: String },
    /// `{ "hme": .., "label": .., "note": .. }`
    Reserve { hme: String, label: String, note: String },
}

/// What a [`RequestBody`] holds.
pub enum RequestBodyView {
    Empty,
    Generate { lang_code: Seq<char> },
    Reserve { hme: Seq<char>, label: Seq<char>, note: Seq<char> },
}

impl View for RequestBody {
    type V = RequestBodyView;

    open spec fn view(&self) -> RequestBodyView {
        match self {
            RequestBody::Empty => RequestBodyView::Empty,
            RequestBody::Generate { lang_code } => RequestBodyView::Generate {
                lang_code: lang_code@,
            },
            RequestBody::Reserve { hme, label, note } => RequestBodyView::Reserve {
                hme: hme@,
                label: label@,
                note: note@,
            },
        }
    }
}

/// The members of the JSON object that a body is sent as, in order; none for
/// a request without a body.
pub open spec fn body_members(body: RequestBodyView) -> Option<Seq<(Seq<char>, Seq<char>)>> {
    match body {
        RequestBodyView::Empty => None,
        RequestBodyView::Generate { lang_code } => Some(seq![("langCode"@, lang_code)]),
        RequestBodyView::Reserve { hme, label, note } => Some(
            seq![("hme"@, hme), ("label"@, label), ("note"@, note)],
        ),
    }
}

impl RequestBody {
    /// The JSON document to send as the body.
    pub fn to_json(&self) -> (doc: Option<Json>)
        ensures
            match body_members(self@) {
                Some(members) => doc is Some && is_object_of(doc.unwrap(), members),
                None => doc is None,
            },
    {
        match self {
            RequestBody::Empty => None,
            RequestBody::Generate { lang_code } => {
                let mut members: Vec<Member> = Vec::new();
                members.push(text_member("langCode", lang_code.as_str()));
                Some(Json::Object(members))
            },
            RequestBody::Reserve { hme, label, note } => {
                let mut members: Vec<Member> = Vec::new();
                members.push(text_member("hme", hme.as_str()));
                members.push(text_member("label", label.as_str()));
                members.push(text_member("note", note.as_str()));
                Some(Json::Object(members))
            },
        }
    }
}

/// A `POST` that the caller is to send.
#[derive(Debug, PartialEq, Eq)]
pub struct HttpRequest {
    pub url: String,
    pub headers: Vec<Field>,
    pub query: Vec<Field>,
    pub body: RequestBody,
}

/// What an [`HttpRequest`] holds.
pub struct HttpRequestView {
    pub url: Seq<char>,
    pub headers: Seq<(Seq<char>, Seq<char>)>,
    pub query: Seq<(Seq<char>, Seq<char>)>,
    pub body: RequestBodyView,
}

impl View for HttpRequest {
    type V = HttpRequestView;

    open spec fn view(&self) -> HttpRequestView {
        HttpRequestView {
            url: self.url@,
            headers: fields_view(self.headers@),
            query: fields_view(self.query@),
            body: self.body@,
        }
    }
}

/// The headers that every call carries: the session cookies, a JSON content
/// type, the web client's origin and referer, and a browser's user agent.
pub open spec fn session_headers(cookie: Seq<char>) -> Seq<(Seq<char>, Seq<char>)> {
    seq![
        ("Cookie"@, cookie),
        ("Content-Type"@, CONTENT_TYPE@),
        ("Origin"@, ORIGIN@),
        ("Referer"@, REFERER@),
        ("User-Agent"@, USER_AGENT@),
    ]
}

/// The query parameters that every call carries. The client and account
/// identifiers stay blank.
pub open spec fn session_query() -> Seq<(Seq<char>, Seq<char>)> {
    seq![
        ("clientBuildNumber"@, CLIENT_BUILD@),
        ("clientMasteringNumber"@, CLIENT_BUILD@),
        ("clientId"@, ""@),
        ("dsid"@, ""@),
    ]
}

/// The request that opens a flow.
pub open spec fn validate_request(cookie: Seq<char>) -> HttpRequestView {
    HttpRequestView {
        url: VALIDATE_URL@,
        headers: session_headers(cookie),
        query: session_query(),
        body: RequestBodyView::Empty,
    }
}

/// The request that mints an alias handle.
pub open spec fn generate_request(base_url: Seq<char>, cookie: Seq<char>) -> HttpRequestView {
    HttpRequestView {
        url: base_url + GENERATE_PATH@,
        headers: session_headers(cookie),
        query: session_query(),
        body: RequestBodyView::Generate { lang_code: LANG_CODE@ },
    }
}

/// The request that reserves a minted handle under a label and a note.
pub open spec fn reserve_request(
    base_url: Seq<char>,
    cookie: Seq<char>,
    handle: Seq<char>,
    label: Seq<char>,
    note: Seq<char>,
) -> HttpRequestView {
    HttpRequestView {
        url: base_url + RESERVE_PATH@,
        headers: session_headers(cookie),
        query: session_query(),
        body: RequestBodyView::Reserve { hme: handle, label, note },
    }
}

fn field(name: &str, value: &str) -> (f: Field)
    ensures
        f@ == (name@, value@),
{
    Field { name: String::from_str(name), value: String::from_str(value) }
}

fn build_headers(cookie: &str) -> (headers: Vec<Field>)
    ensures
        fields_view(headers@) == session_headers(cookie@),
{
    let mut headers: Vec<Field> = Vec::new();
    headers.push(field("Cookie", cookie));
    headers.push(field("Content-Type", CONTENT_TYPE));
    headers.push(field("Origin", ORIGIN));
    headers.push(field("Referer", REFERER));
    headers.push(field("User-Agent", USER_AGENT));
    assert(fields_view(headers@) =~= session_headers(cookie@));
    headers
}

fn build_query() -> (query: Vec<Field>)
    ensures
        fields_view(query@) == session_query(),
{
    let mut query: Vec<Field> = Vec::new();
    query.push(field("clientBuildNumber", CLIENT_BUILD));
    query.push(field("clientMasteringNumber", CLIENT_BUILD));
    query.push(field("clientId", ""));
    query.push(field("dsid", ""));
    assert(fields_view(query@) =~= session_query());
    query
}

fn join_url(base_url: &str, path: &str) -> (url: String)
    ensures
        url@ == base_url@ + path@,
{
    let mut url = String::from_str(base_url);
    url.append(path);
    url
}

/// Where a reservation flow stands: which answer it waits for, and what it
/// keeps for the calls that follow.
#[derive(Debug, PartialEq, Eq)]
pub enum Session {
    /// Waiting for the validate answer.
    Validating { cookie: String, label: String, note: String },
    /// Waiting for the generate answer.
    Generating { cookie: String, label: String, note: String, base_url: String },
    /// Waiting for the reserve answer.
    Reserving,
}

/// What a [`Session`] holds.
pub enum SessionView {
    Validating { cookie: Seq<char>, label: Seq<char>, note: Seq<char> },
    Generating { cookie: Seq<char>, label: Seq<char>, note: Seq<char>, base_url: Seq<char> },
    Reserving,
}

impl View for Session {
    type V = SessionView;

    open spec fn view(&self) -> SessionView {
        match self {
            Session::Validating { cookie, label, note } => SessionView::Validating {
                cookie: cookie@,
                label: label@,
                note: note@,
            },
            Session::Generating { cookie, label, note, base_url } => SessionView::Generating {
                cookie: cookie@,
                label: label@,
                note: note@,
                base_url: base_url@,
            },
            Session::Reserving => SessionView::Reserving,
        }
    }
}

/// What the upstream, or the transport, gave back for one request.
#[derive(Debug, PartialEq, Eq)]
pub enum HttpOutcome {
    /// The request could not be carried out.
    Unreachable,
    /// An answer with its status and body.
    Response { status: u16, body: String },
}

/// What a flow asks of its caller after an answer.
#[derive(Debug, PartialEq, Eq)]
pub enum Progress {
    /// Send `request`, and hand its outcome to `session`.
    Continue { session: Session, request: HttpRequest },
    /// The flow is over.
    Finished(Result<HmeEmail, UpstreamError>),
}

/// What a [`Progress`] holds.
pub enum ProgressView {
    Continue { session: SessionView, request: HttpRequestView },
    Reserved(HmeEmailView),
    Failed(UpstreamError),
}

impl View for Progress {
    type V = ProgressView;

    open spec fn view(&self) -> ProgressView {
        match self {
            Progress::Continue { session, request } => ProgressView::Continue {
                session: session@,
                request: request@,
            },
            Progress::Finished(Ok(alias)) => ProgressView::Reserved(alias@),
            Progress::Finished(Err(e)) => ProgressView::Failed(*e),
        }
    }
}

/// Whether a status counts as success.
pub open spec fn is_success_status(status: u16) -> bool {
    200 <= status <= 299
}

/// The step that a session takes on the document of an answer; `None` stands
/// for a body that is not JSON. A failure ends the flow: nothing more is sent.
pub open spec fn after_document(session: SessionView, doc: Option<Json>) -> ProgressView {
    match doc {
        None => ProgressView::Failed(UpstreamError::Transport(TransportFailure::Unreadable)),
        Some(d) => match session {
            SessionView::Validating { cookie, label, note } => match discovered_base_url(d) {
                Err(e) => ProgressView::Failed(e),
                Ok(base_url) => ProgressView::Continue {
                    session: SessionView::Generating { cookie, label, note, base_url },
                    request: generate_request(base_url, cookie),
                },
            },
            SessionView::Generating { cookie, label, note, base_url } => match generated_handle(d) {
                Err(e) => ProgressView::Failed(e),
                Ok(handle) => ProgressView::Continue {
                    session: SessionView::Reserving,
                    request: reserve_request(base_url, cookie, handle, label, note),
                },
            },
            SessionView::Reserving => match reserved_alias(d) {
                Err(e) => ProgressView::Failed(e),
                Ok(alias) => ProgressView::Reserved(alias),
            },
        },
    }
}

/// The step that a session takes on the outcome of its request.
pub open spec fn after_outcome(session: SessionView, outcome: HttpOutcome) -> ProgressView {
    match outcome {
        HttpOutcome::Unreachable => ProgressView::Failed(
            UpstreamError::Transport(TransportFailure::Unreachable),
        ),
        HttpOutcome::Response { status, body } => if is_success_status(status) {
            after_document(session, json_of_text(body@))
        } else {
            ProgressView::Failed(UpstreamError::Transport(TransportFailure::Status(status)))
        },
    }
}

/// A validate answer that lists no alias service ends the flow with a
/// discovery failure: neither the generate nor the reserve request is issued.
pub proof fn missing_service_ends_flow(
    cookie: Seq<char>,
    label: Seq<char>,
    note: Seq<char>,
    doc: Json,
)
    requires
        services_of(doc) is Some,
        member_value(services_of(doc).unwrap(), MAIL_SETTINGS_SERVICE@) is None,
    ensures
        after_document(SessionView::Validating { cookie, label, note }, Some(doc))
            == ProgressView::Failed(UpstreamError::DiscoveryFailed(DiscoveryGap::ServiceMissing)),
{
}

/// A validate answer that lists the alias service without a URL ends the flow
/// with a discovery failure.
pub proof fn missing_url_ends_flow(cookie: Seq<char>, label: Seq<char>, note: Seq<char>, doc: Json)
    requires
        services_of(doc) is Some,
        member_value(services_of(doc).unwrap(), MAIL_SETTINGS_SERVICE@) is Some,
        member_value(services_of(doc).unwrap(), MAIL_SETTINGS_SERVICE@).unwrap().field_value(
            "url"@,
        ) is None || member_value(
            services_of(doc).unwrap(),
            MAIL_SETTINGS_SERVICE@,
        ).unwrap().field_value("url"@) == Some(Json::Null),
    ensures
        after_document(SessionView::Validating { cookie, label, note }, Some(doc))
            == ProgressView::Failed(UpstreamError::DiscoveryFailed(DiscoveryGap::UrlMissing)),
{
}

/// A generate answer with `success: false` ends the flow with the upstream's
/// `error` payload as it was sent: the reserve request is never issued.
pub proof fn rejected_generate_ends_flow(
    cookie: Seq<char>,
    label: Seq<char>,
    note: Seq<char>,
    base_url: Seq<char>,
    doc: Json,
)
    requires
        doc.field_bool("success"@) == Some(false),
    ensures
        after_document(SessionView::Generating { cookie, label, note, base_url }, Some(doc))
            == ProgressView::Failed(
            UpstreamError::Rejected { step: Step::Generate, error: error_payload(doc) },
        ),
{
}

/// A reserve answer with `success: false` ends the flow with the upstream's
/// `error` payload as it was sent.
pub proof fn rejected_reserve_ends_flow(doc: Json)
    requires
        doc.field_bool("success"@) == Some(false),
    ensures
        after_document(SessionView::Reserving, Some(doc)) == ProgressView::Failed(
            UpstreamError::Rejected { step: Step::Reserve, error: error_payload(doc) },
        ),
{
}

/// The calls come in order and a failure sends nothing more: a request
/// follows only a readable answer with a success status, the generate request
/// only the validate answer, the reserve request only the generate answer,
/// and nothing the reserve answer.
pub proof fn calls_come_in_order(session: SessionView, outcome: HttpOutcome)
    ensures
        match after_outcome(session, outcome) {
            ProgressView::Continue { session: next, request } => {
                &&& outcome matches HttpOutcome::Response { status, body }
                &&& is_success_status(status)
                &&& json_of_text(body@) is Some
                &&& match session {
                    SessionView::Validating { cookie, label, note } => {
                        &&& next matches SessionView::Generating {
                            cookie: c,
                            label: l,
                            note: n,
                            base_url,
                        }
                        &&& c == cookie && l == label && n == note
                        &&& request == generate_request(base_url, cookie)
                    },
                    SessionView::Generating { cookie, label, note, base_url } => {
                        &&& next is Reserving
                        &&& request.url == base_url + RESERVE_PATH@
                        &&& request.headers == session_headers(cookie)
                        &&& request.body matches RequestBodyView::Reserve {
                            hme: _,
                            label: l,
                            note: n,
                        }
                        &&& l == label && n == note
                    },
                    SessionView::Reserving => false,
                }
            },
            ProgressView::Reserved(_) => session is Reserving,
            ProgressView::Failed(_) => true,
        },
{
}

impl Session {
    /// Opens a flow for a resolved cookie header: the session, and the validate
    /// request to send first.
    pub fn begin(cookie_header: &str, label: &str, note: &str) -> (start: (Session, HttpRequest))
        ensures
            start.0@ == (SessionView::Validating {
                cookie: cookie_header@,
                label: label@,
                note: note@,
            }),
            start.1@ == validate_request(cookie_header@),
    {
        let request = HttpRequest {
            url: String::from_str(VALIDATE_URL),
            headers: build_headers(cookie_header),
            query: build_query(),
            body: RequestBody::Empty,
        };
        let session = Session::Validating {
            cookie: String::from_str(cookie_header),
            label: String::from_str(label),
            note: String::from_str(note),
        };
        (session, request)
    }

    /// Takes the step that the parsed body of a successful answer calls for.
    pub fn advance_on_document(self, doc: Option<Json>) -> (progress: Progress)
        ensures
            progress@ == after_document(self@, doc),
    {
        let d = match doc {
            Some(d) => d,
            None => {
                return Progress::Finished(
                    Err(UpstreamError::Transport(TransportFailure::Unreadable)),
                );
            },
        };
        match self {
            Session::Validating { cookie, label, note } => match discover_base_url(&d) {
                Err(e) => Progress::Finished(Err(e)),
                Ok(base_url) => {
                    let request = HttpRequest {
                        url: join_url(base_url.as_str(), GENERATE_PATH),
                        headers: build_headers(cookie.as_str()),
                        query: build_query(),
                        body: RequestBody::Generate { lang_code: String::from_str(LANG_CODE) },
                    };
                    Progress::Continue {
                        session: Session::Generating { cookie, label, note, base_url },
                        request,
                    }
                },
            },
            Session::Generating { cookie, label, note, base_url } => match read_generated_handle(d) {
                Err(e) => Progress::Finished(Err(e)),
                Ok(handle) => {
                    let request = HttpRequest {
                        url: join_url(base_url.as_str(), RESERVE_PATH),
                        headers: build_headers(cookie.as_str()),
                        query: build_query(),
                        body: RequestBody::Reserve { hme: handle, label, note },
                    };
                    Progress::Continue { session: Session::Reserving, request }
                },
            },
            Session::Reserving => Progress::Finished(read_reserved_alias(d)),
        }
    }

    /// Takes the step that the outcome of the last request calls for: the next
    /// request, or the end of the flow.
    pub fn advance(self, outcome: HttpOutcome) -> (progress: Progress)
        ensures
            progress@ == after_outcome(self@, outcome),
    {
        match outcome {
            HttpOutcome::Unreachable => Progress::Finished(
                Err(UpstreamError::Transport(TransportFailure::Unreachable)),
            ),
            HttpOutcome::Response { status, body } => {
                if 200 <= status && status <= 299 {
                    let doc = parse_json(body.as_str());
                    self.advance_on_document(doc)
                } else {
                    Progress::Finished(
                        Err(UpstreamError::Transport(TransportFailure::Status(status))),
                    )
                }
            },
        }
    }
}

} // verus!
