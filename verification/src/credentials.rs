//! The credential store: the registrations kept under one key, and the
//! lookup of a bridge token among them.

use vstd::prelude::*;
use vstd::string::*;
use crate::json::{
    is_object_of, json_of_text, member_position, parse_json, text_member, Json, Member,
};
use crate::text::text_eq;

verus! {

/// The key-value namespace that holds the registrations.
pub const STORE_NAMESPACE: &'static str = "HME_BRIDGE_CREDS";

/// The one key under which all registrations are kept.
pub const STORE_KEY: &'static str = "credentials";

/// One user's registration.
#[derive(Debug, PartialEq, Eq)]
pub struct Credential {
    /// A name for people to read.
    pub label: String,
    /// The bridge token that callers present.
    pub token: String,
    /// The upstream session: a JSON array of `{ name, value }` cookies.
    pub cookie: String,
}

/// What a [`Credential`] holds.
pub struct CredentialView {
    pub label: Seq<char>,
    pub token: Seq<char>,
    pub cookie: Seq<char>,
}

impl View for Credential {
    type V = CredentialView;

    open spec fn view(&self) -> CredentialView {
        CredentialView { label: self.label@, token: self.token@, cookie: self.cookie@ }
    }
}

/// What a list of registrations holds, in order.
pub open spec fn credentials_view(credentials: Seq<Credential>) -> Seq<CredentialView> {
    credentials.map_values(|c: Credential| c@)
}

/// What an optional list of registrations holds.
pub open spec fn optional_credentials(credentials: Option<Vec<Credential>>) -> Option<
    Seq<CredentialView>,
> {
    match credentials {
        Some(c) => Some(credentials_view(c@)),
        None => None,
    }
}

/// The registration that a JSON object describes: its `label`, `token` and
/// `cookie` are strings.
pub open spec fn credential_of(item: Json) -> Option<CredentialView> {
    match (item.field_text("label"@), item.field_text("token"@), item.field_text("cookie"@)) {
        (Some(label), Some(token), Some(cookie)) => Some(CredentialView { label, token, cookie }),
        _ => None,
    }
}

/// The registrations that a document lists: the items of an array in which
/// every item describes a registration.
pub open spec fn credentials_of(doc: Json) -> Option<Seq<CredentialView>> {
    match doc {
        Json::Array(items) => if forall|i: int|
            0 <= i < items@.len() ==> credential_of(#[trigger] items@[i]) is Some {
            Some(Seq::new(items@.len(), |i: int| credential_of(items@[i]).unwrap()))
        } else {
            None
        },
        _ => None,
    }
}

/// The registrations that a stored text lists; `None` where the text is not
/// a JSON array of registrations.
pub open spec fn stored_credentials(text: Seq<char>) -> Option<Seq<CredentialView>> {
    match json_of_text(text) {
        Some(doc) => credentials_of(doc),
        None => None,
    }
}

/// Reads one registration out of a JSON object.
pub fn decode_credential(item: &Json) -> (credential: Option<Credential>)
    ensures
        match credential {
            Some(c) => credential_of(*item) == Some(c@),
            None => credential_of(*item) is None,
        },
{
    let label = match item.text_field("label") {
        Some(l) => l,
        None => { return None; },
    };
    let token = match item.text_field("token") {
        Some(t) => t,
        None => { return None; },
    };
    let cookie = match item.text_field("cookie") {
        Some(c) => c,
        None => { return None; },
    };
    Some(Credential { label, token, cookie })
}

/// Reads the registrations out of a JSON array.
pub fn decode_credentials(doc: &Json) -> (credentials: Option<Vec<Credential>>)
    ensures
        optional_credentials(credentials) == credentials_of(*doc),
{
    let items = match doc {
        Json::Array(items) => items,
        _ => { return None; },
    };
    let mut credentials: Vec<Credential> = Vec::new();
    let mut i: usize = 0;
    while i < items.len()
        invariant
            *doc == Json::Array(*items),
            i <= items@.len(),
            credentials@.len() == i,
            forall|k: int|
                0 <= k < i ==> credential_of(#[trigger] items@[k]) == Some(credentials@[k]@),
        decreases items@.len() - i,
    {
        match decode_credential(&items[i]) {
            Some(credential) => credentials.push(credential),
            None => { return None; },
        }
        i += 1;
    }
    assert(credentials_view(credentials@) =~= credentials_of(*doc).unwrap());
    Some(credentials)
}

/// The members of the object that a registration is stored as, in order.
pub open spec fn stored_members(credential: CredentialView) -> Seq<(Seq<char>, Seq<char>)> {
    seq![
        ("label"@, credential.label),
        ("token"@, credential.token),
        ("cookie"@, credential.cookie),
    ]
}

/// The document that a list of registrations is stored as: an array with one
/// `{ label, token, cookie }` object for each, in order. Reading it back
/// gives the same registrations.
pub fn credentials_to_json(credentials: &Vec<Credential>) -> (doc: Json)
    ensures
        credentials_of(doc) == Some(credentials_view(credentials@)),
        doc.items_value() is Some,
        doc.items_value().unwrap().len() == credentials@.len(),
        forall|k: int|
            0 <= k < credentials@.len() ==> is_object_of(
                #[trigger] doc.items_value().unwrap()[k],
                stored_members(credentials@[k]@),
            ),
{
    let mut items: Vec<Json> = Vec::new();
    let mut i: usize = 0;
    while i < credentials.len()
        invariant
            i <= credentials@.len(),
            items@.len() == i,
            forall|k: int|
                0 <= k < i ==> credential_of(#[trigger] items@[k]) == Some(credentials@[k]@),
            forall|k: int|
                0 <= k < i ==> is_object_of(#[trigger] items@[k], stored_members(credentials@[k]@)),
        decreases credentials@.len() - i,
    {
        let mut members: Vec<Member> = Vec::new();
        members.push(text_member("label", credentials[i].label.as_str()));
        members.push(text_member("token", credentials[i].token.as_str()));
        members.push(text_member("cookie", credentials[i].cookie.as_str()));
        let item = Json::Object(members);
        proof {
            reveal_strlit("label");
            reveal_strlit("token");
            reveal_strlit("cookie");
            reveal_with_fuel(member_position, 4);
            assert("label"@ != "token"@) by {
                assert("label"@[0] != "token"@[0]);
            }
            assert("label"@ != "cookie"@) by {
                assert("label"@[0] != "cookie"@[0]);
            }
            assert("token"@ != "cookie"@) by {
                assert("token"@[0] != "cookie"@[0]);
            }
            assert(member_position(members@, "label"@, 0) == Some(0int));
            assert(member_position(members@, "token"@, 0) == Some(1int));
            assert(member_position(members@, "cookie"@, 0) == Some(2int));
            assert(credential_of(item) == Some(credentials@[i as int]@));
            assert(is_object_of(item, stored_members(credentials@[i as int]@)));
        }
        items.push(item);
        i += 1;
    }
    let doc = Json::Array(items);
    assert(credentials_of(doc).unwrap() =~= credentials_view(credentials@));
    doc
}

/// Parses the text kept under [`STORE_KEY`].
pub fn parse_credentials(text: &str) -> (credentials: Option<Vec<Credential>>)
    ensures
        optional_credentials(credentials) == stored_credentials(text@),
{
    match parse_json(text) {
        Some(doc) => decode_credentials(&doc),
        None => None,
    }
}

/// All registrations, given what the store holds under [`STORE_KEY`]: none
/// where nothing is stored, and `None` where what is stored cannot be read.
pub fn load_credentials(stored: Option<&str>) -> (credentials: Option<Vec<Credential>>)
    ensures
        optional_credentials(credentials) == match stored {
            None => Some(Seq::<CredentialView>::empty()),
            Some(text) => stored_credentials(text@),
        },
{
    match stored {
        None => {
            let credentials: Vec<Credential> = Vec::new();
            assert(credentials_view(credentials@) =~= Seq::<CredentialView>::empty());
            Some(credentials)
        },
        Some(text) => parse_credentials(text),
    }
}

/// The position of the first registration from `from` on whose token is
/// `token`.
pub open spec fn token_position(
    credentials: Seq<CredentialView>,
    token: Seq<char>,
    from: int,
) -> Option<int>
    decreases credentials.len() - from,
{
    if from < 0 || from >= credentials.len() {
        None
    } else if credentials[from].token == token {
        Some(from)
    } else {
        token_position(credentials, token, from + 1)
    }
}

/// The registration that `token` selects: the first whose token it is.
pub open spec fn credential_for(credentials: Seq<CredentialView>, token: Seq<char>) -> Option<
    CredentialView,
> {
    match token_position(credentials, token, 0) {
        Some(i) => Some(credentials[i]),
        None => None,
    }
}

/// Whether no two registrations share a token.
pub open spec fn distinct_tokens(credentials: Seq<CredentialView>) -> bool {
    forall|i: int, j: int|
        0 <= i < j < credentials.len() ==> credentials[i].token != credentials[j].token
}

/// A position that [`token_position`] gives lies in the list and holds the
/// token, and no earlier position from `from` on holds it; where it gives
/// none, no position from `from` on holds the token.
pub proof fn token_position_is_first(credentials: Seq<CredentialView>, token: Seq<char>, from: int)
    requires
        0 <= from,
    ensures
        match token_position(credentials, token, from) {
            Some(i) => from <= i < credentials.len() && credentials[i].token == token
                && forall|j: int| from <= j < i ==> credentials[j].token != token,
            None => forall|j: int| from <= j < credentials.len() ==> credentials[j].token != token,
        },
    decreases credentials.len() - from,
{
    if from < credentials.len() && credentials[from].token != token {
        token_position_is_first(credentials, token, from + 1);
    }
}

/// Among registrations with distinct tokens, a token selects exactly the
/// registration that carries it.
pub proof fn distinct_token_selects_its_credential(credentials: Seq<CredentialView>, at: int)
    requires
        distinct_tokens(credentials),
        0 <= at < credentials.len(),
    ensures
        credential_for(credentials, credentials[at].token) == Some(credentials[at]),
{
    token_position_is_first(credentials, credentials[at].token, 0);
}

/// A token that no registration carries selects none.
pub proof fn unknown_token_selects_nothing(credentials: Seq<CredentialView>, token: Seq<char>)
    requires
        forall|i: int| 0 <= i < credentials.len() ==> credentials[i].token != token,
    ensures
        credential_for(credentials, token) is None,
{
    token_position_is_first(credentials, token, 0);
}

/// Looks a bridge token up by exact match.
pub fn find_credential(credentials: &Vec<Credential>, token: &str) -> (position: Option<usize>)
    ensures
        match position {
            Some(i) => i < credentials@.len() && token_position(
                credentials_view(credentials@),
                token@,
                0,
            ) == Some(i as int),
            None => token_position(credentials_view(credentials@), token@, 0) is None,
        },
{
    let ghost all = credentials_view(credentials@);
    let mut i: usize = 0;
    while i < credentials.len()
        invariant
            all == credentials_view(credentials@),
            i <= credentials@.len(),
            token_position(all, token@, 0) == token_position(all, token@, i as int),
        decreases credentials@.len() - i,
    {
        if text_eq(credentials[i].token.as_str(), token) {
            return Some(i);
        }
        i += 1;
    }
    None
}

/// The registrations without those that carry `token`, in their order.
pub open spec fn without_token(credentials: Seq<CredentialView>, token: Seq<char>) -> Seq<
    CredentialView,
>
    decreases credentials.len(),
{
    if credentials.len() == 0 {
        Seq::empty()
    } else if credentials[0].token == token {
        without_token(credentials.skip(1), token)
    } else {
        seq![credentials[0]] + without_token(credentials.skip(1), token)
    }
}

/// Whether a registration carries `token`.
pub open spec fn has_token(credentials: Seq<CredentialView>, token: Seq<char>) -> bool {
    exists|i: int| 0 <= i < credentials.len() && credentials[i].token == token
}

/// Adds a registration at the end. Tokens stay distinct where the new token
/// is one that no registration carries yet.
pub fn add_credential(
    credentials: &mut Vec<Credential>,
    label: String,
    token: String,
    cookie: String,
)
    ensures
        credentials_view(final(credentials)@) == credentials_view(old(credentials)@).push(
            CredentialView { label: label@, token: token@, cookie: cookie@ },
        ),
        distinct_tokens(credentials_view(old(credentials)@)) && !has_token(
            credentials_view(old(credentials)@),
            token@,
        ) ==> distinct_tokens(credentials_view(final(credentials)@)),
{
    let ghost before = credentials_view(credentials@);
    let ghost added = CredentialView { label: label@, token: token@, cookie: cookie@ };
    credentials.push(Credential { label, token, cookie });
    proof {
        let after = credentials_view(credentials@);
        assert(after =~= before.push(added));
        if distinct_tokens(before) && !has_token(before, added.token) {
            assert forall|i: int, j: int| 0 <= i < j < after.len() implies after[i].token
                != after[j].token by {
                if j < before.len() {
                    assert(after[i] == before[i] && after[j] == before[j]);
                } else {
                    assert(after[i] == before[i]);
                }
            }
        }
    }
}

/// Gives the registration that `token` selects a new label and a new stored
/// session, and returns its position; changes nothing where no registration
/// carries the token.
pub fn update_credential(
    credentials: &mut Vec<Credential>,
    token: &str,
    label: String,
    cookie: String,
) -> (position: Option<usize>)
    ensures
        match token_position(credentials_view(old(credentials)@), token@, 0) {
            Some(i) => position == Some(i as usize) && credentials_view(final(credentials)@)
                == credentials_view(old(credentials)@).update(
                i,
                CredentialView { label: label@, token: token@, cookie: cookie@ },
            ),
            None => position is None && final(credentials)@ == old(credentials)@,
        },
{
    let ghost before = credentials_view(credentials@);
    proof {
        token_position_is_first(before, token@, 0);
    }
    match find_credential(credentials, token) {
        Some(i) => {
            let kept = credentials[i].token.clone();
            let ghost changed = CredentialView { label: label@, token: token@, cookie: cookie@ };
            credentials.set(i, Credential { label, token: kept, cookie });
            assert(credentials_view(credentials@) =~= before.update(i as int, changed));
            Some(i)
        },
        None => None,
    }
}

/// Removes every registration that carries `token`, and says whether there
/// was one.
pub fn remove_credential(credentials: &mut Vec<Credential>, token: &str) -> (removed: bool)
    ensures
        credentials_view(final(credentials)@) == without_token(
            credentials_view(old(credentials)@),
            token@,
        ),
        removed == has_token(credentials_view(old(credentials)@), token@),
        removed == (final(credentials)@.len() < old(credentials)@.len()),
{
    let ghost before = credentials_view(credentials@);
    let mut removed = false;
    let mut i: usize = 0;
    proof {
        assert(before.skip(0) =~= before);
        assert(before.take(0) + without_token(before, token@) =~= without_token(before, token@));
    }
    while i < credentials.len()
        invariant
            i <= credentials@.len(),
            credentials@.len() <= before.len(),
            without_token(before, token@) == credentials_view(credentials@).take(i as int)
                + without_token(credentials_view(credentials@).skip(i as int), token@),
            forall|k: int| 0 <= k < i ==> credentials_view(credentials@)[k].token != token@,
            removed ==> has_token(before, token@),
            !removed ==> credentials_view(credentials@) == before,
            removed == (credentials@.len() < before.len()),
        decreases credentials@.len() - i,
    {
        let ghost now = credentials_view(credentials@);
        let ghost rest = now.skip(i as int);
        proof {
            assert(rest[0] == now[i as int]);
            assert(rest.skip(1) =~= now.skip(i + 1));
            assert(now[i as int] == credentials@[i as int]@);
        }
        if text_eq(credentials[i].token.as_str(), token) {
            proof {
                if !removed {
                    assert(before[i as int].token == token@);
                }
            }
            credentials.remove(i);
            removed = true;
            proof {
                let then = credentials_view(credentials@);
                assert(then =~= now.remove(i as int));
                assert(then.take(i as int) =~= now.take(i as int));
                assert(then.skip(i as int) =~= now.skip(i + 1));
            }
        } else {
            proof {
                assert(now.take(i + 1) =~= now.take(i as int) + seq![now[i as int]]);
                assert(now.take(i as int) + (seq![now[i as int]] + without_token(
                    now.skip(i + 1),
                    token@,
                )) =~= now.take(i + 1) + without_token(now.skip(i + 1), token@));
            }
            i += 1;
        }
    }
    proof {
        let now = credentials_view(credentials@);
        assert(now.skip(i as int) =~= Seq::<CredentialView>::empty());
        assert(now.take(i as int) =~= now);
        assert(now + Seq::<CredentialView>::empty() =~= now);
        if !removed {
            assert(!has_token(before, token@));
        }
    }
    removed
}

} // verus!
