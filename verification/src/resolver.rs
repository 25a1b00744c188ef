//! The authentication resolver: from the auth headers of a request to the
//! cookie context of an upstream session, by way of the credential store
//! where a bridge token is presented.

use vstd::prelude::*;
use vstd::string::*;
use crate::cookies::{context_of_text, required_context, required_names};
use crate::credentials::{
    credential_for, credentials_view, distinct_token_selects_its_credential, distinct_tokens,
    find_credential, parse_credentials, stored_credentials, unknown_token_selects_nothing,
    Credential, CredentialView,
};
use crate::text::{after_prefix, has_prefix, optional_text, strip_prefix};

verus! {

/// The header that carries `Bearer <token>`.
pub const AUTHORIZATION_HEADER: &'static str = "authorization";

/// The header in which a password manager places its API key: a serialized
/// session, or a bridge token.
pub const DIRECT_AUTH_HEADER: &'static str = "authentication";

/// What precedes the token in [`AUTHORIZATION_HEADER`].
pub const BEARER_PREFIX: &'static str = "Bearer ";

/// The auth-bearing headers of one request, each as sent or absent.
#[derive(Debug, PartialEq, Eq)]
pub struct AuthHeaders {
    pub authorization: Option<String>,
    pub authentication: Option<String>,
}

/// Why a request has no session.
#[derive(Debug, Clone, Copy, PartialEq, Eq, Structural)]
pub enum AuthError {
    /// No source gave a session.
    Missing,
    /// The direct header is present but empty.
    Empty,
    /// The credential store cannot be opened.
    StoreUnavailable,
    /// The direct header holds a token, and the store holds nothing to match it
    /// against.
    NoCredentials,
    /// The direct header holds a token, and what the store holds cannot be read.
    BadCredentialsFormat,
}

/// What a read of the credential store gave.
#[derive(Debug, PartialEq, Eq)]
pub enum StoreRead {
    /// The store cannot be opened.
    Unavailable,
    /// The read failed, or nothing is stored.
    Nothing,
    /// The stored text.
    Text(String),
}

/// A resolution that waits for a read of the credential store.
#[derive(Debug, PartialEq, Eq)]
pub enum Resolver {
    /// To look up the token of the `Bearer` header; the direct header is kept
    /// for the case that the token gives nothing.
    Bearer { token: String, authentication: Option<String> },
    /// To look up the value of the direct header as a token.
    Direct { token: String },
}

/// What a [`Resolver`] holds.
pub enum ResolverView {
    Bearer { token: Seq<char>, authentication: Option<Seq<char>> },
    Direct { token: Seq<char> },
}

impl View for Resolver {
    type V = ResolverView;

    open spec fn view(&self) -> ResolverView {
        match self {
            Resolver::Bearer { token, authentication } => ResolverView::Bearer {
                token: token@,
                authentication: optional_text(*authentication),
            },
            Resolver::Direct { token } => ResolverView::Direct { token: token@ },
        }
    }
}

/// Where a resolution stands after a step.
#[derive(Debug, PartialEq, Eq)]
pub enum Resolution {
    /// Read the credential store, and hand what it gave to the resolver.
    ReadStore(Resolver),
    /// The cookie context. It may be empty: the caller decides what an empty
    /// context means.
    Resolved(String),
    /// No session.
    Failed(AuthError),
}

/// What a [`Resolution`] holds.
pub enum ResolutionView {
    ReadStore(ResolverView),
    Resolved(Seq<char>),
    Failed(AuthError),
}

impl View for Resolution {
    type V = ResolutionView;

    open spec fn view(&self) -> ResolutionView {
        match self {
            Resolution::ReadStore(resolver) => ResolutionView::ReadStore(resolver@),
            Resolution::Resolved(context) => ResolutionView::Resolved(context@),
            Resolution::Failed(e) => ResolutionView::Failed(*e),
        }
    }
}

/// The token of an `Authorization: Bearer <token>` header.
pub open spec fn bearer_token(authorization: Option<Seq<char>>) -> Option<Seq<char>> {
    match authorization {
        Some(value) => if has_prefix(value, BEARER_PREFIX@) {
            Some(after_prefix(value, BEARER_PREFIX@))
        } else {
            None
        },
        None => None,
    }
}

/// The cookie context that `token` stands for: that of the stored session of
/// the registration it selects, where that session can be read.
pub open spec fn context_for_token(credentials: Seq<CredentialView>, token: Seq<char>) -> Option<
    Seq<char>,
> {
    match credential_for(credentials, token) {
        Some(credential) => match context_of_text(credential.cookie, required_names()) {
            Ok(context) => Some(context),
            Err(_) => None,
        },
        None => None,
    }
}

/// The direct-header path up to the store: an absent header gives no session,
/// an empty one fails at once, a serialized session is used as it is, and
/// anything else is a token to look up.
pub open spec fn direct_step(authentication: Option<Seq<char>>) -> ResolutionView {
    match authentication {
        None => ResolutionView::Failed(AuthError::Missing),
        Some(value) => if value.len() == 0 {
            ResolutionView::Failed(AuthError::Empty)
        } else {
            match context_of_text(value, required_names()) {
                Ok(context) => ResolutionView::Resolved(context),
                Err(_) => ResolutionView::ReadStore(ResolverView::Direct { token: value }),
            }
        },
    }
}

/// The first step of a resolution: the `Bearer` token goes first, then the
/// direct header.
pub open spec fn first_step(
    authorization: Option<Seq<char>>,
    authentication: Option<Seq<char>>,
) -> ResolutionView {
    match bearer_token(authorization) {
        Some(token) => ResolutionView::ReadStore(ResolverView::Bearer { token, authentication }),
        None => direct_step(authentication),
    }
}

/// The step after a read of the store. A `Bearer` token that gives nothing
/// falls through to the direct header without a word; a direct token that
/// gives nothing ends the resolution.
pub open spec fn after_store(resolver: ResolverView, store: StoreRead) -> ResolutionView {
    match resolver {
        ResolverView::Bearer { token, authentication } => match store {
            StoreRead::Unavailable => ResolutionView::Failed(AuthError::StoreUnavailable),
            StoreRead::Nothing => direct_step(authentication),
            StoreRead::Text(text) => match stored_credentials(text@) {
                None => direct_step(authentication),
                Some(credentials) => match context_for_token(credentials, token) {
                    Some(context) => ResolutionView::Resolved(context),
                    None => direct_step(authentication),
                },
            },
        },
        ResolverView::Direct { token } => match store {
            StoreRead::Unavailable => ResolutionView::Failed(AuthError::StoreUnavailable),
            StoreRead::Nothing => ResolutionView::Failed(AuthError::NoCredentials),
            StoreRead::Text(text) => match stored_credentials(text@) {
                None => ResolutionView::Failed(AuthError::BadCredentialsFormat),
                Some(credentials) => match context_for_token(credentials, token) {
                    Some(context) => ResolutionView::Resolved(context),
                    None => ResolutionView::Failed(AuthError::Missing),
                },
            },
        },
    }
}

/// Among registrations with distinct tokens, a `Bearer` token gives exactly
/// the cookie context of the registration that carries it, where the session
/// stored with that registration can be read.
pub proof fn bearer_token_gives_its_context(
    credentials: Seq<CredentialView>,
    at: int,
    text: String,
    authentication: Option<Seq<char>>,
)
    requires
        stored_credentials(text@) == Some(credentials),
        distinct_tokens(credentials),
        0 <= at < credentials.len(),
        context_of_text(credentials[at].cookie, required_names()) is Ok,
    ensures
        after_store(
            ResolverView::Bearer { token: credentials[at].token, authentication },
            StoreRead::Text(text),
        ) == ResolutionView::Resolved(
            context_of_text(credentials[at].cookie, required_names())->Ok_0,
        ),
{
    distinct_token_selects_its_credential(credentials, at);
}

/// Among registrations with distinct tokens, a token in the direct header
/// gives exactly the cookie context of the registration that carries it, where
/// the session stored with that registration can be read.
pub proof fn direct_token_gives_its_context(
    credentials: Seq<CredentialView>,
    at: int,
    text: String,
)
    requires
        stored_credentials(text@) == Some(credentials),
        distinct_tokens(credentials),
        0 <= at < credentials.len(),
        context_of_text(credentials[at].cookie, required_names()) is Ok,
    ensures
        after_store(
            ResolverView::Direct { token: credentials[at].token },
            StoreRead::Text(text),
        ) == ResolutionView::Resolved(
            context_of_text(credentials[at].cookie, required_names())->Ok_0,
        ),
{
    distinct_token_selects_its_credential(credentials, at);
}

/// A `Bearer` token that no registration carries is no error: the resolution
/// goes on with the direct header.
pub proof fn unknown_bearer_token_falls_through(
    credentials: Seq<CredentialView>,
    token: Seq<char>,
    text: String,
    authentication: Option<Seq<char>>,
)
    requires
        stored_credentials(text@) == Some(credentials),
        forall|i: int| 0 <= i < credentials.len() ==> credentials[i].token != token,
    ensures
        after_store(ResolverView::Bearer { token, authentication }, StoreRead::Text(text))
            == direct_step(authentication),
{
    unknown_token_selects_nothing(credentials, token);
}

/// A direct token that no registration carries leaves the request without a
/// session.
pub proof fn unknown_direct_token_gives_no_session(
    credentials: Seq<CredentialView>,
    token: Seq<char>,
    text: String,
)
    requires
        stored_credentials(text@) == Some(credentials),
        forall|i: int| 0 <= i < credentials.len() ==> credentials[i].token != token,
    ensures
        after_store(ResolverView::Direct { token }, StoreRead::Text(text))
            == ResolutionView::Failed(AuthError::Missing),
{
    unknown_token_selects_nothing(credentials, token);
}

/// An empty direct header fails at once. Without a `Bearer` token the store
/// is not read at all; after a `Bearer` token that gave nothing, it is not
/// read again.
pub proof fn empty_direct_header_fails_at_once(
    authorization: Option<Seq<char>>,
    token: Seq<char>,
    store: StoreRead,
)
    ensures
        direct_step(Some(Seq::<char>::empty())) == ResolutionView::Failed(AuthError::Empty),
        bearer_token(authorization) is None ==> first_step(
            authorization,
            Some(Seq::<char>::empty()),
        ) == ResolutionView::Failed(AuthError::Empty),
        !(after_store(
            ResolverView::Bearer { token, authentication: Some(Seq::<char>::empty()) },
            store,
        ) is ReadStore),
{
}

/// A request without either header has no session.
pub proof fn no_headers_no_session()
    ensures
        first_step(None, None) == ResolutionView::Failed(AuthError::Missing),
{
}

/// A resolution reads the store at most twice: once for a `Bearer` token, and
/// once for a direct token.
pub proof fn store_is_read_at_most_twice(resolver: ResolverView, store: StoreRead)
    ensures
        match after_store(resolver, store) {
            ResolutionView::ReadStore(next) => resolver is Bearer && next is Direct,
            _ => true,
        },
{
}

/// The cookie context of the registration that `token` selects.
pub fn lookup_context(credentials: &Vec<Credential>, token: &str) -> (context: Option<String>)
    ensures
        optional_text(context) == context_for_token(credentials_view(credentials@), token@),
{
    match find_credential(credentials, token) {
        Some(i) => match required_context(credentials[i].cookie.as_str()) {
            Ok(context) => Some(context),
            Err(_) => None,
        },
        None => None,
    }
}

/// Takes the direct-header path up to the store.
pub fn resolve_direct(authentication: Option<String>) -> (resolution: Resolution)
    ensures
        resolution@ == direct_step(optional_text(authentication)),
{
    match authentication {
        None => Resolution::Failed(AuthError::Missing),
        Some(value) => {
            if value.as_str().unicode_len() == 0 {
                Resolution::Failed(AuthError::Empty)
            } else {
                match required_context(value.as_str()) {
                    Ok(context) => Resolution::Resolved(context),
                    Err(_) => Resolution::ReadStore(Resolver::Direct { token: value }),
                }
            }
        },
    }
}

impl Resolver {
    /// Takes the first step of a resolution.
    pub fn begin(headers: AuthHeaders) -> (resolution: Resolution)
        ensures
            resolution@ == first_step(
                optional_text(headers.authorization),
                optional_text(headers.authentication),
            ),
    {
        let bearer = match &headers.authorization {
            Some(value) => match strip_prefix(value.as_str(), BEARER_PREFIX) {
                Some(token) => Some(String::from_str(token)),
                None => None,
            },
            None => None,
        };
        match bearer {
            Some(token) => Resolution::ReadStore(
                Resolver::Bearer { token, authentication: headers.authentication },
            ),
            None => resolve_direct(headers.authentication),
        }
    }

    /// Takes the step that a read of the store calls for.
    pub fn advance(self, store: StoreRead) -> (resolution: Resolution)
        ensures
            resolution@ == after_store(self@, store),
    {
        match self {
            Resolver::Bearer { token, authentication } => {
                let found = match &store {
                    StoreRead::Unavailable => {
                        return Resolution::Failed(AuthError::StoreUnavailable);
                    },
                    StoreRead::Nothing => None,
                    StoreRead::Text(text) => match parse_credentials(text.as_str()) {
                        Some(credentials) => lookup_context(&credentials, token.as_str()),
                        None => None,
                    },
                };
                match found {
                    Some(context) => Resolution::Resolved(context),
                    None => resolve_direct(authentication),
                }
            },
            Resolver::Direct { token } => match &store {
                StoreRead::Unavailable => Resolution::Failed(AuthError::StoreUnavailable),
                StoreRead::Nothing => Resolution::Failed(AuthError::NoCredentials),
                StoreRead::Text(text) => match parse_credentials(text.as_str()) {
                    None => Resolution::Failed(AuthError::BadCredentialsFormat),
                    Some(credentials) => match lookup_context(&credentials, token.as_str()) {
                        Some(context) => Resolution::Resolved(context),
                        None => Resolution::Failed(AuthError::Missing),
                    },
                },
            },
        }
    }
}

} // verus!
