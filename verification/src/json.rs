//! JSON documents.
//!
//! Documents are `serde_json` values. Verification sees them through a
//! mathematical model, [`Json`], and reaches them only through the small
//! functions at the end of this file, each of which states what one
//! `serde_json` function does to the model. Those statements are taken on
//! trust; everything built on them is proved.

use vstd::prelude::*;

verus! {

/// `serde_json::Value`, opaque to the verifier; see [`json_of`] for its model.
#[verifier::external_type_specification]
#[verifier::external_body]
pub struct ExJsonValue(serde_json::Value);

/// `serde_json::Map`, opaque to the verifier; see [`object_of`] for its model.
#[verifier::external_type_specification]
#[verifier::external_body]
#[verifier::reject_recursive_types(K)]
#[verifier::reject_recursive_types(V)]
pub struct ExJsonMap<K, V>(serde_json::Map<K, V>);

/// A JSON object: string keys, JSON values.
pub type JsonObject = serde_json::Map<String, serde_json::Value>;

/// The model of a JSON number.
pub enum JsonNumber {
    /// A whole number.
    Integer(int),
    /// Any other number, by the bit pattern of its IEEE 754 binary64 form.
    Double(u64),
}

/// The model of a JSON document: a tree whose objects are maps without order.
pub enum Json {
    Null,
    Bool(bool),
    Number(JsonNumber),
    Text(Seq<char>),
    Array(Seq<Json>),
    Object(Map<Seq<char>, Json>),
}

/// The object without entries.
pub open spec fn no_entries() -> Map<Seq<char>, Json> {
    Map::empty()
}

/// The models of a list of values, in order.
pub open spec fn models_of(items: Seq<serde_json::Value>) -> Seq<Json> {
    Seq::new(items.len(), |i: int| json_of(items[i]))
}

/// What a `serde_json::Value` holds.
pub uninterp spec fn json_of(value: serde_json::Value) -> Json;

/// The entries that a `serde_json::Map` holds.
pub uninterp spec fn object_of(object: serde_json::Map<String, serde_json::Value>) -> Map<
    Seq<char>,
    Json,
>;

/// `serde_json::Map::new`: the result has no entries.
#[verifier::external_body]
pub(crate) fn object_new() -> (object: JsonObject)
    ensures
        object_of(object) == no_entries(),
{
    serde_json::Map::new()
}

/// `Clone::clone` of `serde_json::Map`: the copy holds the same entries.
pub assume_specification[ <serde_json::Map<String, serde_json::Value> as Clone>::clone ](
    object: &serde_json::Map<String, serde_json::Value>,
) -> (copy: serde_json::Map<String, serde_json::Value>)
    ensures
        object_of(copy) == object_of(*object),
;

/// `serde_json::Map::get`: the value stored under `key`, if there is one.
#[verifier::external_body]
pub(crate) fn object_get<'a>(object: &'a JsonObject, key: &str) -> (found: Option<
    &'a serde_json::Value,
>)
    ensures
        found is Some <==> object_of(*object).contains_key(key@),
        found matches Some(v) ==> json_of(*v) == object_of(*object)[key@],
{
    object.get(key)
}

/// `serde_json::Map::get_mut`: the value stored under `key`, if there is one,
/// for writing. The object ends up holding under `key` whatever the caller
/// leaves in the returned slot; no other entry changes.
#[verifier::external_body]
pub(crate) fn object_get_mut<'a>(object: &'a mut JsonObject, key: &str) -> (slot: Option<
    &'a mut serde_json::Value,
>)
    ensures
        slot is Some <==> object_of(*old(object)).contains_key(key@),
        slot matches Some(v) ==> json_of(*v) == object_of(*old(object))[key@] && object_of(
            *final(object),
        ) == object_of(*old(object)).insert(key@, json_of(*final(v))),
        slot is None ==> object_of(*final(object)) == object_of(*old(object)),
{
    object.get_mut(key)
}

/// `serde_json::Map::insert`: afterwards `key` maps to `value` and every other
/// entry is as before; the value that `key` mapped to before is returned.
#[verifier::external_body]
pub(crate) fn object_insert(
    object: &mut JsonObject,
    key: String,
    value: serde_json::Value,
) -> (previous: Option<serde_json::Value>)
    ensures
        object_of(*final(object)) == object_of(*old(object)).insert(key@, json_of(value)),
        previous is Some <==> object_of(*old(object)).contains_key(key@),
        previous matches Some(p) ==> json_of(p) == object_of(*old(object))[key@],
{
    object.insert(key, value)
}

/// `serde_json::Map::remove`: afterwards `key` is absent and every other
/// entry is as before; the value that `key` mapped to is returned.
#[verifier::external_body]
pub(crate) fn object_remove(object: &mut JsonObject, key: &str) -> (removed: Option<
    serde_json::Value,
>)
    ensures
        object_of(*final(object)) == object_of(*old(object)).remove(key@),
        removed is Some <==> object_of(*old(object)).contains_key(key@),
        removed matches Some(v) ==> json_of(v) == object_of(*old(object))[key@],
{
    object.remove(key)
}

/// `serde_json::Value::as_str`: the text of a string value, nothing for any
/// other kind of value.
#[verifier::external_body]
pub(crate) fn value_as_str<'a>(value: &'a serde_json::Value) -> (text: Option<&'a str>)
    ensures
        text is Some <==> json_of(*value) is Text,
        text matches Some(s) ==> json_of(*value) == Json::Text(s@),
{
    value.as_str()
}

/// `serde_json::Value::as_object_mut`: the entries of an object value, for
/// writing; nothing for any other kind of value, which then stays as it is.
#[verifier::external_body]
pub(crate) fn value_as_object_mut<'a>(value: &'a mut serde_json::Value) -> (inner: Option<
    &'a mut JsonObject,
>)
    ensures
        inner is Some <==> json_of(*old(value)) is Object,
        inner matches Some(o) ==> json_of(*old(value)) == Json::Object(object_of(*o)) && json_of(
            *final(value),
        ) == Json::Object(object_of(*final(o))),
        inner is None ==> json_of(*final(value)) == json_of(*old(value)),
{
    value.as_object_mut()
}

/// `From<String>` for `serde_json::Value`: a string value with that text.
#[verifier::external_body]
pub(crate) fn value_from_string(text: String) -> (value: serde_json::Value)
    ensures
        json_of(value) == Json::Text(text@),
{
    serde_json::Value::from(text)
}

/// `From<u16>` for `serde_json::Value`: the whole number `n`.
#[verifier::external_body]
pub(crate) fn value_from_u16(n: u16) -> (value: serde_json::Value)
    ensures
        json_of(value) == Json::Number(JsonNumber::Integer(n as int)),
{
    serde_json::Value::from(n)
}

/// `From<Vec<Value>>` for `serde_json::Value`: an array of the items, in order.
#[verifier::external_body]
pub(crate) fn value_from_array(items: Vec<serde_json::Value>) -> (value: serde_json::Value)
    ensures
        json_of(value) == Json::Array(models_of(items@)),
{
    serde_json::Value::from(items)
}

/// `From<Map<String, Value>>` for `serde_json::Value`: an object value with
/// the entries of `object`.
#[verifier::external_body]
pub(crate) fn value_from_object(object: JsonObject) -> (value: serde_json::Value)
    ensures
        json_of(value) == Json::Object(object_of(object)),
{
    serde_json::Value::from(object)
}

} // verus!
