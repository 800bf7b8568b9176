//! JSON values as `serde_json` holds them, and the calls into that crate.
//!
//! Everything in this file that touches `serde_json` is taken on trust: each
//! contract says what the crate's source shows of the function it names,
//! and none of them is proved here.

use crate::dict::distinct_keys;
use vstd::prelude::*;

verus! {

/// `serde_json::Value`, a JSON value in memory. Nothing of its inside is
/// visible here; what it holds is told by `json_of`.
#[verifier::external_type_specification]
#[verifier::external_body]
pub struct ExValue(serde_json::Value);

/// `serde_json::Number`, the number of a JSON value. It is carried along
/// and never looked into: the shape of a workspace has no numbers.
#[verifier::external_type_specification]
#[verifier::external_body]
pub struct ExNumber(serde_json::Number);

/// The content of a JSON value. The members of an object stand in the order
/// in which the value holds them.
pub ghost enum Json {
    Null,
    Bool(bool),
    Number(serde_json::Number),
    Str(Seq<char>),
    Array(Seq<Json>),
    Object(Seq<(Seq<char>, Json)>),
}

/// What a `serde_json::Value` holds.
pub uninterp spec fn json_of(v: serde_json::Value) -> Json;

/// What `serde_json::from_str` reads from a text: the value, or `None` where
/// it reports an error.
pub uninterp spec fn json_parse(text: Seq<char>) -> Option<Json>;

/// What `serde_json::to_string_pretty` writes for a value: the text, or
/// `None` where it reports an error.
pub uninterp spec fn json_print(j: Json) -> Option<Seq<char>>;

/// The contents of a list of values.
pub open spec fn items_of(items: Seq<serde_json::Value>) -> Seq<Json> {
    items.map_values(|v: serde_json::Value| json_of(v))
}

/// The names of borrowed members.
pub open spec fn names_of(members: Seq<(&String, &serde_json::Value)>) -> Seq<Seq<char>> {
    members.map_values(|m: (&String, &serde_json::Value)| m.0@)
}

/// The contents of borrowed members.
pub open spec fn members_of(members: Seq<(&String, &serde_json::Value)>) -> Seq<(Seq<char>, Json)> {
    members.map_values(|m: (&String, &serde_json::Value)| (m.0@, json_of(*m.1)))
}

/// The names of owned members.
pub open spec fn owned_names_of(members: Seq<(String, serde_json::Value)>) -> Seq<Seq<char>> {
    members.map_values(|m: (String, serde_json::Value)| m.0@)
}

/// The contents of owned members.
pub open spec fn owned_members_of(members: Seq<(String, serde_json::Value)>) -> Seq<
    (Seq<char>, Json),
> {
    members.map_values(|m: (String, serde_json::Value)| (m.0@, json_of(m.1)))
}

/// `serde_json::from_str` at type `Value`. The result is the value that the
/// crate reads from `text`; an error of the crate comes back as `None`.
#[verifier::external_body]
pub(crate) fn parse_value(text: &str) -> (r: Option<serde_json::Value>)
    ensures
        match r {
            Some(v) => json_parse(text@) == Some(json_of(v)),
            None => json_parse(text@) is None,
        },
{
    serde_json::from_str::<serde_json::Value>(text).ok()
}

/// `serde_json::to_string_pretty` on a `Value`. The result is the text that
/// the crate writes; an error of the crate comes back as its message.
#[verifier::external_body]
pub(crate) fn print_value(v: &serde_json::Value) -> (r: Result<String, String>)
    ensures
        match r {
            Ok(text) => json_print(json_of(*v)) == Some(text@),
            Err(_) => json_print(json_of(*v)) is None,
        },
{
    match serde_json::to_string_pretty(v) {
        Ok(text) => Ok(text),
        Err(e) => Err(e.to_string()),
    }
}

/// `Value::is_null`: true for the null value and no other.
#[verifier::external_body]
pub(crate) fn value_is_null(v: &serde_json::Value) -> (r: bool)
    ensures
        r == (json_of(*v) is Null),
{
    v.is_null()
}

/// `Value::as_str`: the text of a string value, `None` for any other value.
#[verifier::external_body]
pub(crate) fn value_as_str(v: &serde_json::Value) -> (r: Option<&str>)
    ensures
        match r {
            Some(s) => json_of(*v) == Json::Str(s@),
            None => !(json_of(*v) is Str),
        },
{
    v.as_str()
}

/// `Value::as_array`: the items of an array, `None` for any other value.
#[verifier::external_body]
pub(crate) fn value_as_array(v: &serde_json::Value) -> (r: Option<&Vec<serde_json::Value>>)
    ensures
        match r {
            Some(items) => json_of(*v) == Json::Array(items_of(items@)),
            None => !(json_of(*v) is Array),
        },
{
    v.as_array()
}

/// `Value::as_object` and `Map::iter`: the members of an object in the
/// order of the map, `None` for any other value. A map holds each name once.
#[verifier::external_body]
pub(crate) fn value_members<'a>(v: &'a serde_json::Value) -> (r: Option<
    Vec<(&'a String, &'a serde_json::Value)>,
>)
    ensures
        match r {
            Some(members) => json_of(*v) == Json::Object(members_of(members@)) && distinct_keys(
                names_of(members@),
            ),
            None => !(json_of(*v) is Object),
        },
{
    match v.as_object() {
        Some(map) => Some(map.iter().collect()),
        None => None,
    }
}

/// `Value::Null`.
#[verifier::external_body]
pub(crate) fn null_value() -> (v: serde_json::Value)
    ensures
        json_of(v) == Json::Null,
{
    serde_json::Value::Null
}

/// `Value::String`: the string value with the given text.
#[verifier::external_body]
pub(crate) fn string_value(text: String) -> (v: serde_json::Value)
    ensures
        json_of(v) == Json::Str(text@),
{
    serde_json::Value::String(text)
}

/// `Value::Array`: the array of the given items.
#[verifier::external_body]
pub(crate) fn array_value(items: Vec<serde_json::Value>) -> (v: serde_json::Value)
    ensures
        json_of(v) == Json::Array(items_of(items@)),
{
    serde_json::Value::Array(items)
}

/// `Value::Object` over `Map::from_iter`: the object with the given
/// members. With names that differ from each other the map keeps each
/// member, and in the order given, since `serde_json` is built here with
/// `preserve_order`.
#[verifier::external_body]
pub(crate) fn object_value(members: Vec<(String, serde_json::Value)>) -> (v: serde_json::Value)
    requires
        distinct_keys(owned_names_of(members@)),
    ensures
        json_of(v) == Json::Object(owned_members_of(members@)),
{
    serde_json::Value::Object(members.into_iter().collect())
}

} // verus!
