//! JSON values as `serde_json` holds and writes them.
//!
//! Nothing in this file is proved: it states what the library takes from
//! `serde_json` on trust. A value is modelled by [`Json`], and the text that
//! `serde_json` writes for a value is named, not spelled out.

use vstd::prelude::*;

verus! {

/// What a JSON value holds, as far as this library builds values: booleans,
/// unsigned numbers, texts, and objects of these. An object is a map from
/// its keys to its members; the order of its members is not part of it.
pub enum Json {
    Bool(bool),
    Number(nat),
    Text(Seq<char>),
    Object(Map<Seq<char>, Json>),
}

#[verifier::external_type_specification]
#[verifier::external_body]
pub struct ExValue(serde_json::Value);

#[verifier::external_type_specification]
#[verifier::external_body]
#[verifier::reject_recursive_types(K)]
#[verifier::reject_recursive_types(V)]
pub struct ExObject<K, V>(serde_json::Map<K, V>);

#[verifier::external_type_specification]
#[verifier::external_body]
pub struct ExError(serde_json::Error);

/// What the value `v` holds.
pub uninterp spec fn value_model(v: serde_json::Value) -> Json;

/// The members of the object `m`, by key.
pub uninterp spec fn object_fields(m: serde_json::Map<String, serde_json::Value>) -> Map<
    Seq<char>,
    Json,
>;

/// The compact text that `serde_json::to_string` writes for a value that
/// holds `j`. An object keeps its members sorted by key, as `serde_json`
/// does without its feature `preserve_order`, so the text does not depend
/// on the order in which the members were put in.
pub uninterp spec fn json_text(j: Json) -> Seq<char>;

/// `serde_json::Map::new` makes an object without members.
pub assume_specification[ serde_json::Map::<String, serde_json::Value>::new ]() -> (m: serde_json::Map<String, serde_json::Value>)
    ensures
        object_fields(m) == (Map::<Seq<char>, Json>::empty()),
;

/// `serde_json::Map::insert` sets the member under the key `k` to `v`,
/// whether or not the object had one there, and returns the member that it
/// replaced.
pub assume_specification[ serde_json::Map::<String, serde_json::Value>::insert ](
    m: &mut serde_json::Map<String, serde_json::Value>,
    k: String,
    v: serde_json::Value,
) -> (replaced: Option<serde_json::Value>)
    ensures
        object_fields(*final(m)) == object_fields(*old(m)).insert(k@, value_model(v)),
        replaced is Some <==> object_fields(*old(m)).contains_key(k@),
        replaced matches Some(before) ==> value_model(before) == object_fields(*old(m))[k@],
;

/// `Value::from` on a string slice makes the JSON string with that text.
#[verifier::external_body]
pub(crate) fn text_value(s: &str) -> (v: serde_json::Value)
    ensures
        value_model(v) == Json::Text(s@),
{
    serde_json::Value::from(s)
}

/// `Value::from` on a `u64` makes the JSON number with that value.
#[verifier::external_body]
pub(crate) fn number_value(n: u64) -> (v: serde_json::Value)
    ensures
        value_model(v) == Json::Number(n as nat),
{
    serde_json::Value::from(n)
}

/// `Value::from` on a `bool` makes the JSON boolean with that value.
#[verifier::external_body]
pub(crate) fn bool_value(b: bool) -> (v: serde_json::Value)
    ensures
        value_model(v) == Json::Bool(b),
{
    serde_json::Value::from(b)
}

/// `Value::from` on an object makes the JSON value that is that object.
#[verifier::external_body]
pub(crate) fn object_value(m: serde_json::Map<String, serde_json::Value>) -> (v: serde_json::Value)
    ensures
        value_model(v) == Json::Object(object_fields(m)),
{
    serde_json::Value::from(m)
}

/// `serde_json::to_string` writes a value as compact JSON. The text depends
/// on what the value holds and on nothing else. For a `Value` the call
/// succeeds: its members are written to a byte vector, which takes every
/// write, and its objects have strings for keys.
#[verifier::external_body]
pub(crate) fn value_text(v: &serde_json::Value) -> (text: Result<String, serde_json::Error>)
    ensures
        text is Ok,
        text matches Ok(t) ==> t@ == json_text(value_model(*v)),
{
    serde_json::to_string(v)
}

} // verus!
