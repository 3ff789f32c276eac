//! JSON values.
//!
//! A value is a `serde_json::Value`. Contracts speak of it through [`json_content`], the
//! tree that it holds.

use serde_json::Value;
use vstd::prelude::*;

use crate::text;

verus! {

/// `serde_json::Value`.
#[verifier::external_type_specification]
#[verifier::external_body]
pub struct ExValue(serde_json::Value);

/// What a JSON value holds.
pub enum JsonContent {
    Null,
    Bool(bool),
    /// A number: its text, and its value where that is an integer of type `u64`.
    Number(Seq<char>, Option<u64>),
    Text(Seq<char>),
    Array(Seq<JsonContent>),
    Object(Map<Seq<char>, JsonContent>),
}

/// The tree that a `serde_json::Value` holds.
pub uninterp spec fn json_content(v: Value) -> JsonContent;

/// The tree that `serde_json::from_str` reads from a text; `None` for a text that it
/// rejects.
pub uninterp spec fn parsed_json(text: Seq<char>) -> Option<JsonContent>;

/// The text that `serde_json::to_string_pretty` writes for a tree; `None` where it fails.
pub uninterp spec fn pretty_json(content: JsonContent) -> Option<Seq<char>>;

impl JsonContent {
    /// The members of an object; a value of any other kind has none.
    pub open spec fn members(self) -> Map<Seq<char>, JsonContent> {
        match self {
            JsonContent::Object(m) => m,
            _ => Map::empty(),
        }
    }

    /// The member of an object under a key.
    pub open spec fn member(self, key: Seq<char>) -> Option<JsonContent> {
        if self.members().contains_key(key) {
            Some(self.members()[key])
        } else {
            None
        }
    }

    /// The string, where the value is one.
    pub open spec fn text(self) -> Option<Seq<char>> {
        match self {
            JsonContent::Text(s) => Some(s),
            _ => None,
        }
    }

    /// The truth value, where the value is one.
    pub open spec fn flag(self) -> Option<bool> {
        match self {
            JsonContent::Bool(b) => Some(b),
            _ => None,
        }
    }

    /// The number, where the value is an integer of type `u64`.
    pub open spec fn count(self) -> Option<u64> {
        match self {
            JsonContent::Number(_, n) => n,
            _ => None,
        }
    }

    /// The text of the number, where the value is one.
    pub open spec fn number_text(self) -> Option<Seq<char>> {
        match self {
            JsonContent::Number(t, _) => Some(t),
            _ => None,
        }
    }

    /// The string member under a key.
    pub open spec fn text_at(self, key: Seq<char>) -> Option<Seq<char>> {
        match self.member(key) {
            Some(m) => m.text(),
            None => None,
        }
    }

    /// The truth value under a key.
    pub open spec fn flag_at(self, key: Seq<char>) -> Option<bool> {
        match self.member(key) {
            Some(m) => m.flag(),
            None => None,
        }
    }

    /// The unsigned integer under a key.
    pub open spec fn count_at(self, key: Seq<char>) -> Option<u64> {
        match self.member(key) {
            Some(m) => m.count(),
            None => None,
        }
    }
}

/// The text of an optional string slice.
pub open spec fn text_of(s: Option<&str>) -> Option<Seq<char>> {
    match s {
        Some(t) => Some(t@),
        None => None,
    }
}

/// The text of an optional string.
pub open spec fn string_of(s: Option<String>) -> Option<Seq<char>> {
    match s {
        Some(t) => Some(t@),
        None => None,
    }
}

/// `Value::get` with a string key: the member of an object under that key, and `None` for
/// a missing key or a value that is no object.
#[verifier::external_body]
pub(crate) fn get<'a>(v: &'a Value, key: &str) -> (r: Option<&'a Value>)
    ensures
        r is Some <==> json_content(*v).member(key@) is Some,
        r is Some ==> json_content(*r->0) == json_content(*v).member(key@)->0,
{
    v.get(key)
}

/// `Value::as_str`: the string that a string value holds, and `None` for any other value.
#[verifier::external_body]
pub(crate) fn as_str<'a>(v: &'a Value) -> (r: Option<&'a str>)
    ensures
        text_of(r) == json_content(*v).text(),
{
    v.as_str()
}

/// `Value::as_bool`: the truth value that a boolean holds, and `None` for any other value.
#[verifier::external_body]
pub(crate) fn as_bool(v: &Value) -> (r: Option<bool>)
    ensures
        r == json_content(*v).flag(),
{
    v.as_bool()
}

/// `Value::as_u64`: the number, where the value is an integer that fits, and `None`
/// otherwise.
#[verifier::external_body]
pub(crate) fn as_u64(v: &Value) -> (r: Option<u64>)
    ensures
        r == json_content(*v).count(),
{
    v.as_u64()
}

/// `Value::as_number`, displayed: the text of the number that a number value holds, and
/// `None` for any other value.
#[verifier::external_body]
pub(crate) fn as_number_text(v: &Value) -> (r: Option<String>)
    ensures
        string_of(r) == json_content(*v).number_text(),
{
    v.as_number().map(|n| n.to_string())
}

/// `Value::is_object`: whether the value is an object.
#[verifier::external_body]
pub(crate) fn is_object(v: &Value) -> (r: bool)
    ensures
        r == json_content(*v) is Object,
{
    v.is_object()
}

/// `serde_json::from_str` into a `Value`: the tree that the text spells, and `None` for a
/// text that is rejected.
#[verifier::external_body]
pub(crate) fn parse(text: &str) -> (r: Option<Value>)
    ensures
        r is Some <==> parsed_json(text@) is Some,
        r is Some ==> json_content(r->0) == parsed_json(text@)->0,
{
    serde_json::from_str(text).ok()
}

/// `serde_json::to_string_pretty` of a `Value`; the failure is handed over as its text, of
/// which nothing is claimed.
#[verifier::external_body]
pub(crate) fn to_pretty(v: &Value) -> (r: Result<String, String>)
    ensures
        r is Ok <==> pretty_json(json_content(*v)) is Some,
        r is Ok ==> r->Ok_0@ == pretty_json(json_content(*v))->0,
{
    serde_json::to_string_pretty(v).map_err(|e| e.to_string())
}

/// `Value::clone`: a value that holds the same tree.
#[verifier::external_body]
pub(crate) fn copy_json(v: &Value) -> (r: Value)
    ensures
        json_content(r) == json_content(*v),
{
    v.clone()
}

/// `Value::Null`.
#[verifier::external_body]
pub(crate) fn null() -> (r: Value)
    ensures
        json_content(r) == JsonContent::Null,
{
    Value::Null
}

/// `Value::String` of a string.
#[verifier::external_body]
pub(crate) fn from_text(s: String) -> (r: Value)
    ensures
        json_content(r) == JsonContent::Text(s@),
{
    Value::String(s)
}

/// `Value::from` of an unsigned integer.
#[verifier::external_body]
pub(crate) fn from_count(n: u64) -> (r: Value)
    ensures
        json_content(r) == JsonContent::Number(text::decimal(n as nat), Some(n)),
{
    Value::from(n)
}

/// `Value::Object` of `Map::new`: an object without members.
#[verifier::external_body]
pub(crate) fn empty_object() -> (r: Value)
    ensures
        json_content(r) == JsonContent::Object(Map::empty()),
{
    Value::Object(serde_json::Map::new())
}

/// `Map::insert` on the map of an object: the key then stands for the new member, and
/// every other member is as before.
#[verifier::external_body]
pub(crate) fn insert(v: &mut Value, key: &str, member: Value)
    requires
        json_content(*old(v)) is Object,
    ensures
        json_content(*final(v)) == JsonContent::Object(
            json_content(*old(v)).members().insert(key@, json_content(member)),
        ),
{
    v.as_object_mut().unwrap().insert(key.to_owned(), member);
}

/// The string member of an object under a key.
pub fn text_member<'a>(v: &'a Value, key: &str) -> (r: Option<&'a str>)
    ensures
        text_of(r) == json_content(*v).text_at(key@),
{
    match get(v, key) {
        Some(m) => as_str(m),
        None => None,
    }
}

/// The truth value under a key of an object.
pub fn flag_member(v: &Value, key: &str) -> (r: Option<bool>)
    ensures
        r == json_content(*v).flag_at(key@),
{
    match get(v, key) {
        Some(m) => as_bool(m),
        None => None,
    }
}

/// The unsigned integer under a key of an object.
pub fn count_member(v: &Value, key: &str) -> (r: Option<u64>)
    ensures
        r == json_content(*v).count_at(key@),
{
    match get(v, key) {
        Some(m) => as_u64(m),
        None => None,
    }
}

/// A value is read as what it is and as nothing else.
pub proof fn values_are_read_as_what_they_are(v: JsonContent)
    ensures
        v matches JsonContent::Text(s) ==> v.text() == Some(s),
        !(v is Text) ==> v.text() is None,
        v matches JsonContent::Bool(b) ==> v.flag() == Some(b),
        !(v is Bool) ==> v.flag() is None,
        v matches JsonContent::Number(t, n) ==> v.count() == n && v.number_text() == Some(t),
        !(v is Number) ==> v.count() is None && v.number_text() is None,
{
}

/// The members of an object are found under their keys; nothing else has members.
pub proof fn members_are_found_by_key(
    m: Map<Seq<char>, JsonContent>,
    v: JsonContent,
    key: Seq<char>,
)
    ensures
        ({
            let o = JsonContent::Object(m);
            &&& m.contains_key(key) ==> {
                &&& o.member(key) == Some(m[key])
                &&& o.text_at(key) == m[key].text()
                &&& o.flag_at(key) == m[key].flag()
                &&& o.count_at(key) == m[key].count()
            }
            &&& !m.contains_key(key) ==> {
                &&& o.member(key) is None
                &&& o.text_at(key) is None
                &&& o.flag_at(key) is None
                &&& o.count_at(key) is None
            }
        }),
        !(v is Object) ==> v.member(key) is None && v.text_at(key) is None && v.flag_at(key) is None
            && v.count_at(key) is None,
{
}

/// An optional string stands for its text.
pub proof fn optional_strings_are_their_texts(s: Option<String>, t: Option<&str>)
    ensures
        s is Some <==> string_of(s) is Some,
        s is Some ==> string_of(s)->0 == s->0@,
        t is Some <==> text_of(t) is Some,
        t is Some ==> text_of(t)->0 == t->0@,
{
}

} // verus!
