//! JSON documents as plain values, and the lookups the bridge makes in them.

use vstd::prelude::*;
use vstd::string::*;
use crate::text::{optional_text, text_eq};

verus! {

/// A JSON document.
///
/// A number keeps its value only where it is an integer that fits `i64`;
/// every other number is `Number(None)`.
#[derive(Debug, PartialEq, Eq)]
pub enum Json {
    Null,
    Bool(bool),
    Number(Option<i64>),
    String(String),
    Array(Vec<Json>),
    Object(Vec<Member>),
}

/// One `key: value` entry of a JSON object.
#[derive(Debug, PartialEq, Eq)]
pub struct Member {
    pub key: String,
    pub value: Json,
}

/// `serde_json::Value`, carried through without a look inside.
#[verifier::external_type_specification]
#[verifier::external_body]
pub struct ExValue(serde_json::Value);

/// The document that a text denotes, `None` where the text is not JSON.
pub uninterp spec fn json_of_text(text: Seq<char>) -> Option<Json>;

/// Rebuilds a `serde_json::Value` as a [`Json`], variant by variant. A number
/// goes through `serde_json::Number::as_i64`; an object's members come in the
/// order in which `serde_json::Map` hands them out.
#[verifier::external_body]
fn lift(value: serde_json::Value) -> Json {
    match value {
        serde_json::Value::Null => Json::Null,
        serde_json::Value::Bool(b) => Json::Bool(b),
        serde_json::Value::Number(n) => Json::Number(n.as_i64()),
        serde_json::Value::String(s) => Json::String(s),
        serde_json::Value::Array(items) => Json::Array(items.into_iter().map(lift).collect()),
        serde_json::Value::Object(map) => Json::Object(
            map.into_iter().map(|(key, v)| Member { key, value: lift(v) }).collect(),
        ),
    }
}

/// `serde_json::Error`, carried through without a look inside.
#[verifier::external_type_specification]
#[verifier::external_body]
pub struct ExJsonError(serde_json::Error);

/// Calls `serde_json::from_str` for a `serde_json::Value`. Whether it succeeds,
/// and the document it gives, is a function of the text alone.
#[verifier::external_body]
pub(crate) fn read_json(text: &str) -> (doc: Result<Json, serde_json::Error>)
    ensures
        match doc {
            Ok(d) => json_of_text(text@) == Some(d),
            Err(_) => json_of_text(text@) is None,
        },
{
    serde_json::from_str::<serde_json::Value>(text).map(lift)
}

/// Parses a text as JSON.
pub fn parse_json(text: &str) -> (doc: Option<Json>)
    ensures
        doc == json_of_text(text@),
{
    match read_json(text) {
        Ok(d) => Some(d),
        Err(_) => None,
    }
}

/// The position of the first member from `from` on whose key is `key`.
pub open spec fn member_position(members: Seq<Member>, key: Seq<char>, from: int) -> Option<int>
    decreases members.len() - from,
{
    if from < 0 || from >= members.len() {
        None
    } else if members[from].key@ == key {
        Some(from)
    } else {
        member_position(members, key, from + 1)
    }
}

/// The value stored under `key` in a list of members: that of the first member
/// with this key.
pub open spec fn member_value(members: Seq<Member>, key: Seq<char>) -> Option<Json> {
    match member_position(members, key, 0) {
        Some(i) => Some(members[i].value),
        None => None,
    }
}

/// A position that [`member_position`] gives lies in the list, holds the key,
/// and no earlier position from `from` on holds it.
pub proof fn member_position_is_first(members: Seq<Member>, key: Seq<char>, from: int)
    requires
        0 <= from,
    ensures
        match member_position(members, key, from) {
            Some(i) => from <= i < members.len() && members[i].key@ == key && forall|j: int|
                from <= j < i ==> members[j].key@ != key,
            None => forall|j: int| from <= j < members.len() ==> members[j].key@ != key,
        },
    decreases members.len() - from,
{
    if from < members.len() && members[from].key@ != key {
        member_position_is_first(members, key, from + 1);
    }
}

/// Whether a document is an object of the given text members, in order.
pub open spec fn is_object_of(doc: Json, members: Seq<(Seq<char>, Seq<char>)>) -> bool {
    match doc {
        Json::Object(found) => found@.len() == members.len() && forall|i: int|
            0 <= i < members.len() ==> (#[trigger] found@[i]).key@ == members[i].0
                && found@[i].value.text_value() == Some(members[i].1),
        _ => false,
    }
}

/// A member with the given key and text.
pub fn text_member(key: &str, text: &str) -> (member: Member)
    ensures
        member.key@ == key@,
        member.value.text_value() == Some(text@),
{
    Member { key: String::from_str(key), value: Json::String(String::from_str(text)) }
}

/// Looks `key` up in a list of members.
pub fn find_member<'a>(members: &'a Vec<Member>, key: &str) -> (found: Option<&'a Json>)
    ensures
        found is Some <==> member_value(members@, key@) is Some,
        found is Some ==> *found.unwrap() == member_value(members@, key@).unwrap(),
{
    let mut i: usize = 0;
    while i < members.len()
        invariant
            i <= members@.len(),
            member_position(members@, key@, 0) == member_position(members@, key@, i as int),
        decreases members@.len() - i,
    {
        if text_eq(members[i].key.as_str(), key) {
            return Some(&members[i].value);
        }
        i += 1;
    }
    None
}

impl Json {
    /// The value of the field `key`, where this is an object that has one.
    pub open spec fn field_value(self, key: Seq<char>) -> Option<Json> {
        match self {
            Json::Object(members) => member_value(members@, key),
            _ => None,
        }
    }

    /// The text, where this is a string.
    pub open spec fn text_value(self) -> Option<Seq<char>> {
        match self {
            Json::String(s) => Some(s@),
            _ => None,
        }
    }

    /// The flag, where this is `true` or `false`.
    pub open spec fn bool_value(self) -> Option<bool> {
        match self {
            Json::Bool(b) => Some(b),
            _ => None,
        }
    }

    /// The number, where this is an integer that fits `i64`.
    pub open spec fn integer_value(self) -> Option<i64> {
        match self {
            Json::Number(n) => n,
            _ => None,
        }
    }

    /// The items, where this is an array.
    pub open spec fn items_value(self) -> Option<Seq<Json>> {
        match self {
            Json::Array(items) => Some(items@),
            _ => None,
        }
    }

    /// The members, where this is an object.
    pub open spec fn members_value(self) -> Option<Seq<Member>> {
        match self {
            Json::Object(members) => Some(members@),
            _ => None,
        }
    }

    /// The text of the field `key`, where this is an object in which `key`
    /// holds a string.
    pub open spec fn field_text(self, key: Seq<char>) -> Option<Seq<char>> {
        match self.field_value(key) {
            Some(v) => v.text_value(),
            None => None,
        }
    }

    /// The text of a field that may be left out: `Some(None)` where `key` is
    /// missing or `null`, `Some(Some(..))` where it holds a string, and `None`
    /// where it holds anything else.
    pub open spec fn field_optional_text(self, key: Seq<char>) -> Option<Option<Seq<char>>> {
        match self.field_value(key) {
            None => Some(None),
            Some(Json::Null) => Some(None),
            Some(Json::String(s)) => Some(Some(s@)),
            Some(_) => None,
        }
    }

    /// The flag of the field `key`, where `key` holds a boolean.
    pub open spec fn field_bool(self, key: Seq<char>) -> Option<bool> {
        match self.field_value(key) {
            Some(v) => v.bool_value(),
            None => None,
        }
    }

    /// The number of the field `key`, where `key` holds an integer that fits
    /// `i64`.
    pub open spec fn field_integer(self, key: Seq<char>) -> Option<i64> {
        match self.field_value(key) {
            Some(v) => v.integer_value(),
            None => None,
        }
    }

    /// Whether this is `null`.
    pub fn is_null(&self) -> (null: bool)
        ensures
            null == (*self == Json::Null),
    {
        match self {
            Json::Null => true,
            _ => false,
        }
    }

    /// The value of the field `key`: `None` unless this is an object with such
    /// a member.
    pub fn field(&self, key: &str) -> (found: Option<&Json>)
        ensures
            found is Some <==> self.field_value(key@) is Some,
            found is Some ==> *found.unwrap() == self.field_value(key@).unwrap(),
    {
        match self {
            Json::Object(members) => find_member(members, key),
            _ => None,
        }
    }

    /// A copy of the text that the field `key` holds.
    pub fn text_field(&self, key: &str) -> (text: Option<String>)
        ensures
            optional_text(text) == self.field_text(key@),
    {
        match self.field(key) {
            Some(Json::String(s)) => Some(s.clone()),
            _ => None,
        }
    }

    /// A copy of the text of a field that may be left out or `null`; `Err`
    /// where the field holds something that is neither text nor `null`.
    pub fn optional_text_field(&self, key: &str) -> (text: Result<Option<String>, ()>)
        ensures
            match self.field_optional_text(key@) {
                Some(t) => text is Ok && optional_text(text->Ok_0) == t,
                None => text is Err,
            },
    {
        match self.field(key) {
            None => Ok(None),
            Some(Json::Null) => Ok(None),
            Some(Json::String(s)) => Ok(Some(s.clone())),
            Some(_) => Err(()),
        }
    }

    /// The flag that the field `key` holds.
    pub fn bool_field(&self, key: &str) -> (flag: Option<bool>)
        ensures
            flag == self.field_bool(key@),
    {
        match self.field(key) {
            Some(v) => v.as_bool(),
            None => None,
        }
    }

    /// The integer that the field `key` holds.
    pub fn integer_field(&self, key: &str) -> (number: Option<i64>)
        ensures
            number == self.field_integer(key@),
    {
        match self.field(key) {
            Some(v) => v.as_integer(),
            None => None,
        }
    }

    /// Takes the value of the field `key` out of this document.
    pub fn take_field(self, key: &str) -> (found: Option<Json>)
        ensures
            found == self.field_value(key@),
    {
        match self {
            Json::Object(members) => {
                let mut members = members;
                let ghost all = members@;
                let mut i: usize = 0;
                while i < members.len()
                    invariant
                        members@ == all,
                        self.field_value(key@) == member_value(all, key@),
                        i <= members@.len(),
                        member_position(members@, key@, 0) == member_position(
                            members@,
                            key@,
                            i as int,
                        ),
                    decreases members@.len() - i,
                {
                    if text_eq(members[i].key.as_str(), key) {
                        let member = members.swap_remove(i);
                        return Some(member.value);
                    }
                    i += 1;
                }
                None
            },
            _ => None,
        }
    }

    /// The text of a string, `None` for anything else.
    pub fn as_text(&self) -> (text: Option<&String>)
        ensures
            text is Some <==> self.text_value() is Some,
            text is Some ==> text.unwrap()@ == self.text_value().unwrap(),
            text is Some ==> *self == Json::String(*text.unwrap()),
    {
        match self {
            Json::String(s) => Some(s),
            _ => None,
        }
    }

    /// The flag of a boolean, `None` for anything else.
    pub fn as_bool(&self) -> (flag: Option<bool>)
        ensures
            flag == self.bool_value(),
    {
        match self {
            Json::Bool(b) => Some(*b),
            _ => None,
        }
    }

    /// The value of an integer that fits `i64`, `None` for anything else.
    pub fn as_integer(&self) -> (number: Option<i64>)
        ensures
            number == self.integer_value(),
    {
        match self {
            Json::Number(n) => *n,
            _ => None,
        }
    }

    /// The items of an array, `None` for anything else.
    pub fn as_items(&self) -> (items: Option<&Vec<Json>>)
        ensures
            items is Some <==> self.items_value() is Some,
            items is Some ==> items.unwrap()@ == self.items_value().unwrap(),
    {
        match self {
            Json::Array(items) => Some(items),
            _ => None,
        }
    }

    /// The members of an object, `None` for anything else.
    pub fn as_members(&self) -> (members: Option<&Vec<Member>>)
        ensures
            members is Some <==> self.members_value() is Some,
            members is Some ==> members.unwrap()@ == self.members_value().unwrap(),
    {
        match self {
            Json::Object(members) => Some(members),
            _ => None,
        }
    }
}

} // verus!
