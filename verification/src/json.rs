//! JSON documents, as `serde_json` holds them.
//!
//! Nothing in this file is proved. It declares the types of `serde_json`
//! that the library handles, gives names to what they hold and to what the
//! parser and the printer return, and states, for each function of
//! `serde_json` that the library calls, what the function does in terms of
//! those names.

use vstd::prelude::*;

verus! {

/// A number of a JSON document. `serde_json` keeps a number in one of three
/// forms and never changes the form it was given or read in.
pub enum JsonNumber {
    /// An integer that is not negative.
    Unsigned(u64),
    /// A negative integer.
    Negative(i64),
    /// Any other number, by the bits of its binary form.
    Float(u64),
}

/// A JSON value. The members of an object stand in the order in which the
/// object holds them.
pub enum Json {
    Null,
    Bool(bool),
    Number(JsonNumber),
    Text(Seq<char>),
    List(Seq<Json>),
    Object(Seq<(Seq<char>, Json)>),
}

/// The value of the first member of `members` that has the key `key`.
pub open spec fn lookup(members: Seq<(Seq<char>, Json)>, key: Seq<char>) -> Option<Json>
    decreases members.len(),
{
    if members.len() == 0 {
        None
    } else if members[0].0 == key {
        Some(members[0].1)
    } else {
        lookup(members.drop_first(), key)
    }
}

/// `serde_json::Value`: a JSON value. What it holds is `json_view` of it.
#[verifier::external_type_specification]
#[verifier::external_body]
pub struct ExValue(serde_json::Value);

/// `serde_json::Map`: the members of a JSON object. What it holds is
/// `json_members` of it.
#[verifier::external_type_specification]
#[verifier::external_body]
#[verifier::reject_recursive_types(K)]
#[verifier::reject_recursive_types(V)]
pub struct ExMap<K, V>(serde_json::Map<K, V>);

/// `serde_json::Error`: why a text could not be read or a value not be
/// written. Nothing is said of what it holds.
#[verifier::external_type_specification]
#[verifier::external_body]
pub struct ExError(serde_json::Error);

/// The JSON value that a `serde_json::Value` holds.
pub uninterp spec fn json_view(value: serde_json::Value) -> Json;

/// The members that a `serde_json::Map` holds, in its order.
pub uninterp spec fn json_members(map: serde_json::Map<String, serde_json::Value>) -> Seq<
    (Seq<char>, Json),
>;

/// The JSON value that `serde_json::from_str` reads from `text`, or `None`
/// where it reports an error.
pub uninterp spec fn json_parsed(text: Seq<char>) -> Option<Json>;

/// The text that `serde_json::to_string_pretty` writes for `document`, or
/// `None` where it reports an error.
pub uninterp spec fn json_pretty(document: Json) -> Option<Seq<char>>;

/// `serde_json::from_str`, reading a `Value`: the result is `json_parsed` of
/// the text.
#[verifier::external_body]
pub(crate) fn parse_json(text: &str) -> (r: Result<serde_json::Value, serde_json::Error>)
    ensures
        match r {
            Ok(value) => json_parsed(text@) == Some(json_view(value)),
            Err(_) => json_parsed(text@) is None,
        },
{
    serde_json::from_str::<serde_json::Value>(text)
}

/// `serde_json::to_string_pretty`, writing a `Value`: the result is
/// `json_pretty` of what the value holds.
#[verifier::external_body]
pub(crate) fn pretty_json(value: &serde_json::Value) -> (r: Result<String, serde_json::Error>)
    ensures
        match r {
            Ok(text) => json_pretty(json_view(*value)) == Some(text@),
            Err(_) => json_pretty(json_view(*value)) is None,
        },
{
    serde_json::to_string_pretty(value)
}

/// `Value::as_object`: the map of an object, and `None` for any other
/// value.
pub assume_specification<'a>[ serde_json::Value::as_object ](value: &'a serde_json::Value) -> (r:
    Option<&'a serde_json::Map<String, serde_json::Value>>)
    ensures
        match r {
            Some(map) => json_view(*value) == Json::Object(json_members(*map)),
            None => !(json_view(*value) is Object),
        },
;

/// `Value::as_u64`: the number, if the value is an integer that is not
/// negative, and `None` for any other value.
pub assume_specification[ serde_json::Value::as_u64 ](value: &serde_json::Value) -> (r: Option<u64>)
    ensures
        r == match json_view(*value) {
            Json::Number(JsonNumber::Unsigned(n)) => Some(n),
            _ => None::<u64>,
        },
;

/// `Value::as_str`: the text of a string, and `None` for any other value.
pub assume_specification<'a>[ serde_json::Value::as_str ](value: &'a serde_json::Value) -> (r:
    Option<&'a str>)
    ensures
        match r {
            Some(text) => json_view(*value) == Json::Text(text@),
            None => !(json_view(*value) is Text),
        },
;

/// `Value::is_null`: whether the value is `null`.
pub assume_specification[ serde_json::Value::is_null ](value: &serde_json::Value) -> (r: bool)
    ensures
        r == (json_view(*value) is Null),
;

/// `Map::get` with a `str` key: the value of the member with that key, if
/// the map has one. (A map never has two members with one key, so the
/// member found is also the first with that key.)
#[verifier::external_body]
pub(crate) fn member<'a>(map: &'a serde_json::Map<String, serde_json::Value>, key: &str) -> (r:
    Option<&'a serde_json::Value>)
    ensures
        match r {
            Some(value) => lookup(json_members(*map), key@) == Some(json_view(*value)),
            None => lookup(json_members(*map), key@) is None,
        },
{
    map.get(key)
}

/// `Map::new`: a map without members.
pub assume_specification[ serde_json::Map::<String, serde_json::Value>::new ]() -> (r:
    serde_json::Map<String, serde_json::Value>)
    ensures
        json_members(r) == Seq::<(Seq<char>, Json)>::empty(),
;

/// `Map::insert` of a key that the map does not have yet: the new member
/// comes last, and nothing is returned. (The map keeps the order of
/// insertion because this crate turns on `preserve_order`.)
pub assume_specification[ serde_json::Map::<String, serde_json::Value>::insert ](
    map: &mut serde_json::Map<String, serde_json::Value>,
    k: String,
    v: serde_json::Value,
) -> (r: Option<serde_json::Value>)
    requires
        lookup(json_members(*old(map)), k@) is None,
    ensures
        json_members(*final(map)) == json_members(*old(map)).push((k@, json_view(v))),
        r is None,
;

/// `Value::from` a `u32`: the number, as an integer that is not negative.
pub assume_specification[ <serde_json::Value as core::convert::From<u32>>::from ](n: u32) -> (r:
    serde_json::Value)
    ensures
        json_view(r) == Json::Number(JsonNumber::Unsigned(n as u64)),
;

/// `Value::from` a `String`: the string with that text.
pub assume_specification[ <serde_json::Value as core::convert::From<String>>::from ](
    f: String,
) -> (r: serde_json::Value)
    ensures
        json_view(r) == Json::Text(f@),
;

/// `Value::from` a `Map`: the object with the members of the map.
pub assume_specification[ <serde_json::Value as core::convert::From<
    serde_json::Map<String, serde_json::Value>,
>>::from ](f: serde_json::Map<String, serde_json::Value>) -> (r: serde_json::Value)
    ensures
        json_view(r) == Json::Object(json_members(f)),
;

} // verus!
