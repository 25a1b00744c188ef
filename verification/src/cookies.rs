//! The session cookie context: the cookie header built from the cookie pairs
//! that the upstream needs.

use vstd::prelude::*;
use vstd::string::*;
use crate::json::{json_of_text, parse_json, Json};
use crate::text::{result_text, text_eq};

verus! {

/// The cookie that carries the session token.
pub const SESSION_TOKEN_COOKIE: &'static str = "X-APPLE-DS-WEB-SESSION-TOKEN";

/// The cookie that carries the web-auth token.
pub const WEBAUTH_TOKEN_COOKIE: &'static str = "X-APPLE-WEBAUTH-TOKEN";

/// The cookie that carries the web-auth user.
pub const WEBAUTH_USER_COOKIE: &'static str = "X-APPLE-WEBAUTH-USER";

/// What separates two cookies in a header.
pub const COOKIE_SEPARATOR: &'static str = "; ";

/// A named session cookie.
#[derive(Debug, PartialEq, Eq)]
pub struct CookiePair {
    pub name: String,
    pub value: String,
}

/// What a cookie holds: its name, then its value.
pub type PairView = (Seq<char>, Seq<char>);

impl View for CookiePair {
    type V = PairView;

    open spec fn view(&self) -> PairView {
        (self.name@, self.value@)
    }
}

/// What a list of cookies holds, in order.
pub open spec fn pairs_view(pairs: Seq<CookiePair>) -> Seq<PairView> {
    pairs.map_values(|p: CookiePair| p@)
}

/// The characters of each key.
pub open spec fn key_texts(keys: Seq<&str>) -> Seq<Seq<char>> {
    keys.map_values(|k: &str| k@)
}

/// The names of the cookies that authenticate a call to the upstream.
pub open spec fn required_names() -> Seq<Seq<char>> {
    seq![SESSION_TOKEN_COOKIE@, WEBAUTH_TOKEN_COOKIE@, WEBAUTH_USER_COOKIE@]
}

/// The pairs whose name is one of `keys`, in the order in which they stand.
pub open spec fn required_pairs(pairs: Seq<PairView>, keys: Seq<Seq<char>>) -> Seq<PairView>
    decreases pairs.len(),
{
    if pairs.len() == 0 {
        Seq::empty()
    } else {
        let front = required_pairs(pairs.drop_last(), keys);
        if keys.contains(pairs.last().0) {
            front.push(pairs.last())
        } else {
            front
        }
    }
}

/// One cookie as it stands in a header: `name=value`.
pub open spec fn rendered(pair: PairView) -> Seq<char> {
    pair.0 + "="@ + pair.1
}

/// The cookies rendered one after another, `"; "` between each two.
pub open spec fn joined(pairs: Seq<PairView>) -> Seq<char>
    decreases pairs.len(),
{
    if pairs.len() == 0 {
        Seq::empty()
    } else if pairs.len() == 1 {
        rendered(pairs[0])
    } else {
        joined(pairs.drop_last()) + COOKIE_SEPARATOR@ + rendered(pairs.last())
    }
}

/// The cookie header for a list of cookies: those named in `keys`, in their
/// order, as `name=value; name=value; ...`.
pub open spec fn cookie_header(pairs: Seq<PairView>, keys: Seq<Seq<char>>) -> Seq<char> {
    joined(required_pairs(pairs, keys))
}

/// A header of one cookie is that cookie where it is named in `keys`, and
/// empty where it is not.
pub proof fn cookie_header_of_one(pair: PairView, keys: Seq<Seq<char>>)
    ensures
        cookie_header(seq![pair], keys) == if keys.contains(pair.0) {
            rendered(pair)
        } else {
            Seq::<char>::empty()
        },
{
    let one = seq![pair];
    assert(one.drop_last() =~= Seq::<PairView>::empty());
    assert(required_pairs(one.drop_last(), keys) =~= Seq::<PairView>::empty());
    assert(one.last() == pair);
    if keys.contains(pair.0) {
        assert(required_pairs(one, keys) =~= seq![pair]);
    } else {
        assert(required_pairs(one, keys) =~= Seq::<PairView>::empty());
    }
}

/// Filtering keeps the order: the required pairs of two lists put together
/// are those of the first followed by those of the second.
pub proof fn required_pairs_of_concat(a: Seq<PairView>, b: Seq<PairView>, keys: Seq<Seq<char>>)
    ensures
        required_pairs(a + b, keys) == required_pairs(a, keys) + required_pairs(b, keys),
    decreases b.len(),
{
    if b.len() == 0 {
        assert(a + b =~= a);
        assert(required_pairs(a, keys) + required_pairs(b, keys) =~= required_pairs(a, keys));
    } else {
        required_pairs_of_concat(a, b.drop_last(), keys);
        assert((a + b).drop_last() =~= a + b.drop_last());
        assert((a + b).last() == b.last());
        assert(required_pairs(a + b, keys) =~= required_pairs(a, keys) + required_pairs(b, keys));
    }
}

/// Every pair that is kept is named in `keys` and stands in the list it was
/// taken from; every pair of the list that is named in `keys` is kept.
pub proof fn required_pairs_are_the_required(pairs: Seq<PairView>, keys: Seq<Seq<char>>)
    ensures
        forall|k: int|
            0 <= k < required_pairs(pairs, keys).len() ==> keys.contains(
                (#[trigger] required_pairs(pairs, keys)[k]).0,
            ) && pairs.contains(required_pairs(pairs, keys)[k]),
        forall|i: int|
            0 <= i < pairs.len() && keys.contains((#[trigger] pairs[i]).0) ==> required_pairs(
                pairs,
                keys,
            ).contains(pairs[i]),
    decreases pairs.len(),
{
    if pairs.len() > 0 {
        let front = pairs.drop_last();
        required_pairs_are_the_required(front, keys);
        let kept = required_pairs(pairs, keys);
        let kept_front = required_pairs(front, keys);
        assert forall|k: int| 0 <= k < kept.len() implies keys.contains((#[trigger] kept[k]).0)
            && pairs.contains(kept[k]) by {
            if k < kept_front.len() {
                assert(kept[k] == kept_front[k]);
                let at = choose|i: int| 0 <= i < front.len() && front[i] == kept_front[k];
                assert(pairs[at] == kept[k]);
            } else {
                assert(kept[k] == pairs.last());
                assert(pairs[pairs.len() - 1] == kept[k]);
            }
        }
        assert forall|i: int|
            0 <= i < pairs.len() && keys.contains((#[trigger] pairs[i]).0) implies kept.contains(
            pairs[i],
        ) by {
            if i < front.len() {
                assert(front[i] == pairs[i]);
                let at = choose|k: int| 0 <= k < kept_front.len() && kept_front[k] == front[i];
                assert(kept[at] == pairs[i]);
            } else {
                assert(kept[kept.len() - 1] == pairs[i]);
            }
        }
    }
}

/// Joining keeps the order: two non-empty lists put together render as the
/// first, the separator, and the second.
pub proof fn joined_of_concat(a: Seq<PairView>, b: Seq<PairView>)
    requires
        a.len() > 0,
        b.len() > 0,
    ensures
        joined(a + b) == joined(a) + COOKIE_SEPARATOR@ + joined(b),
    decreases b.len(),
{
    assert((a + b).drop_last() =~= a + b.drop_last());
    assert((a + b).last() == b.last());
    if b.len() == 1 {
        assert(a + b.drop_last() =~= a);
    } else {
        joined_of_concat(a, b.drop_last());
        assert(joined(a + b) =~= joined(a) + COOKIE_SEPARATOR@ + joined(b));
    }
}

/// The header of two lists put together: the two headers with a separator
/// between them, or the one that is not empty.
pub proof fn cookie_header_of_concat(a: Seq<PairView>, b: Seq<PairView>, keys: Seq<Seq<char>>)
    ensures
        cookie_header(a + b, keys) == if required_pairs(a, keys).len() == 0 {
            cookie_header(b, keys)
        } else if required_pairs(b, keys).len() == 0 {
            cookie_header(a, keys)
        } else {
            cookie_header(a, keys) + COOKIE_SEPARATOR@ + cookie_header(b, keys)
        },
{
    required_pairs_of_concat(a, b, keys);
    let x = required_pairs(a, keys);
    let y = required_pairs(b, keys);
    if x.len() == 0 {
        assert(x + y =~= y);
    } else if y.len() == 0 {
        assert(x + y =~= x);
    } else {
        joined_of_concat(x, y);
    }
}

/// Whether `name` is one of `keys`.
pub fn is_key(name: &str, keys: &[&str]) -> (found: bool)
    ensures
        found == key_texts(keys@).contains(name@),
{
    let mut j: usize = 0;
    while j < keys.len()
        invariant
            j <= keys@.len(),
            forall|k: int| 0 <= k < j ==> key_texts(keys@)[k] != name@,
        decreases keys@.len() - j,
    {
        if text_eq(keys[j], name) {
            assert(key_texts(keys@)[j as int] == name@);
            return true;
        }
        j += 1;
    }
    false
}

/// Builds the cookie header of the cookies named in `keys`.
pub fn build_cookie_header(pairs: &Vec<CookiePair>, keys: &[&str]) -> (header: String)
    ensures
        header@ == cookie_header(pairs_view(pairs@), key_texts(keys@)),
{
    let ghost all = pairs_view(pairs@);
    let ghost names = key_texts(keys@);
    let mut header = String::new();
    let mut any = false;
    let mut i: usize = 0;
    while i < pairs.len()
        invariant
            all == pairs_view(pairs@),
            names == key_texts(keys@),
            i <= pairs@.len(),
            any == (required_pairs(all.take(i as int), names).len() > 0),
            header@ == joined(required_pairs(all.take(i as int), names)),
        decreases pairs@.len() - i,
    {
        let ghost before = required_pairs(all.take(i as int), names);
        proof {
            assert(all.take(i + 1).drop_last() =~= all.take(i as int));
            assert(all.take(i + 1).last() == pairs@[i as int]@);
        }
        if is_key(pairs[i].name.as_str(), keys) {
            if any {
                header.append(COOKIE_SEPARATOR);
            }
            header.append(pairs[i].name.as_str());
            header.append("=");
            header.append(pairs[i].value.as_str());
            proof {
                let after = before.push(pairs@[i as int]@);
                assert(after.drop_last() =~= before);
                assert(after.last() == pairs@[i as int]@);
                assert(header@ =~= joined(after));
            }
            any = true;
        }
        i += 1;
    }
    proof {
        assert(all.take(pairs@.len() as int) =~= all);
    }
    header
}

/// The cookie that a JSON object describes: its `name` and `value` are
/// strings.
pub open spec fn cookie_pair_of(item: Json) -> Option<PairView> {
    match (item.field_text("name"@), item.field_text("value"@)) {
        (Some(name), Some(value)) => Some((name, value)),
        _ => None,
    }
}

/// The cookies that a document lists: the items of an array in which every
/// item describes a cookie.
pub open spec fn cookie_pairs_of(doc: Json) -> Option<Seq<PairView>> {
    match doc {
        Json::Array(items) => if forall|i: int|
            0 <= i < items@.len() ==> cookie_pair_of(#[trigger] items@[i]) is Some {
            Some(Seq::new(items@.len(), |i: int| cookie_pair_of(items@[i]).unwrap()))
        } else {
            None
        },
        _ => None,
    }
}

/// Why a text gives no cookie context.
#[derive(Debug, Clone, Copy, PartialEq, Eq, Structural)]
pub enum CookieError {
    /// The text is not JSON.
    NotJson,
    /// The document is not an array of `{ name, value }` objects.
    NotCookiePairs,
}

/// The cookie context of a parsed session blob; `None` stands for a blob that
/// is not JSON.
pub open spec fn context_of_document(doc: Option<Json>, keys: Seq<Seq<char>>) -> Result<
    Seq<char>,
    CookieError,
> {
    match doc {
        None => Err(CookieError::NotJson),
        Some(d) => match cookie_pairs_of(d) {
            None => Err(CookieError::NotCookiePairs),
            Some(pairs) => Ok(cookie_header(pairs, keys)),
        },
    }
}

/// The cookie context of a serialized session.
pub open spec fn context_of_text(text: Seq<char>, keys: Seq<Seq<char>>) -> Result<
    Seq<char>,
    CookieError,
> {
    context_of_document(json_of_text(text), keys)
}

/// What an optional list of cookies holds.
pub open spec fn optional_pairs(pairs: Option<Vec<CookiePair>>) -> Option<Seq<PairView>> {
    match pairs {
        Some(p) => Some(pairs_view(p@)),
        None => None,
    }
}

/// Reads one cookie out of a JSON object.
pub fn decode_cookie_pair(item: &Json) -> (pair: Option<CookiePair>)
    ensures
        match pair {
            Some(p) => cookie_pair_of(*item) == Some(p@),
            None => cookie_pair_of(*item) is None,
        },
{
    let name = match item.text_field("name") {
        Some(n) => n,
        None => { return None; },
    };
    let value = match item.text_field("value") {
        Some(v) => v,
        None => { return None; },
    };
    Some(CookiePair { name, value })
}

/// Reads the cookies out of a JSON array.
pub fn decode_cookie_pairs(doc: &Json) -> (pairs: Option<Vec<CookiePair>>)
    ensures
        optional_pairs(pairs) == cookie_pairs_of(*doc),
{
    let items = match doc {
        Json::Array(items) => items,
        _ => { return None; },
    };
    let mut pairs: Vec<CookiePair> = Vec::new();
    let mut i: usize = 0;
    while i < items.len()
        invariant
            *doc == Json::Array(*items),
            i <= items@.len(),
            pairs@.len() == i,
            forall|k: int| 0 <= k < i ==> cookie_pair_of(#[trigger] items@[k]) == Some(pairs@[k]@),
        decreases items@.len() - i,
    {
        match decode_cookie_pair(&items[i]) {
            Some(pair) => pairs.push(pair),
            None => { return None; },
        }
        i += 1;
    }
    assert(pairs_view(pairs@) =~= cookie_pairs_of(*doc).unwrap());
    Some(pairs)
}

/// Builds the cookie context of a parsed session blob.
pub fn cookie_context(doc: Option<Json>, keys: &[&str]) -> (context: Result<String, CookieError>)
    ensures
        result_text(context) == context_of_document(doc, key_texts(keys@)),
{
    match doc {
        None => Err(CookieError::NotJson),
        Some(d) => match decode_cookie_pairs(&d) {
            None => Err(CookieError::NotCookiePairs),
            Some(pairs) => Ok(build_cookie_header(&pairs, keys)),
        },
    }
}

/// Parses a serialized session, a JSON array of `{ name, value }` cookies,
/// and builds the cookie header of the cookies named in `keys`.
pub fn parse_cookies_from_json(json_str: &str, keys: &[&str]) -> (context: Result<
    String,
    CookieError,
>)
    ensures
        result_text(context) == context_of_text(json_str@, key_texts(keys@)),
{
    cookie_context(parse_json(json_str), keys)
}

/// Parses a serialized session and builds the cookie header of the three
/// cookies that the upstream needs.
pub fn required_context(json_str: &str) -> (context: Result<String, CookieError>)
    ensures
        result_text(context) == context_of_text(json_str@, required_names()),
{
    let mut keys: Vec<&str> = Vec::new();
    keys.push(SESSION_TOKEN_COOKIE);
    keys.push(WEBAUTH_TOKEN_COOKIE);
    keys.push(WEBAUTH_USER_COOKIE);
    assert(key_texts(keys@) =~= required_names());
    parse_cookies_from_json(json_str, keys.as_slice())
}

} // verus!
