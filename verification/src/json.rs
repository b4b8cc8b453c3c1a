//! The boundary to `serde_json`: the declared outside types, a mathematical
//! model of a JSON value, and one trusted wrapper per `serde_json` function
//! that the station calls. Nothing in this file is proved; every contract
//! restates what the `serde_json` source shows.

use vstd::prelude::*;

verus! {

#[verifier::external_type_specification]
#[verifier::external_body]
pub struct ExValue(serde_json::Value);

#[verifier::external_type_specification]
#[verifier::external_body]
pub struct ExJsonError(serde_json::Error);

/// A JSON number as `serde_json` stores it without arbitrary precision:
/// a non-negative integer, a negative integer, or a finite double given by
/// its IEEE-754 bit pattern.
pub enum NumberModel {
    Unsigned(u64),
    Negative(i64),
    Double(u64),
}

/// The mathematical content of a `serde_json::Value`, variant for variant.
pub enum JsonModel {
    Null,
    Bool(bool),
    Number(NumberModel),
    Text(Seq<char>),
    Array(Seq<JsonModel>),
    Object(Map<Seq<char>, JsonModel>),
}

/// What a `serde_json::Value` holds.
pub uninterp spec fn json_model(v: serde_json::Value) -> JsonModel;

/// The value that `serde_json::from_str` reads from a text, `None` where it
/// reports an error.
pub uninterp spec fn json_parse(text: Seq<char>) -> Option<JsonModel>;

/// The compact text that `serde_json` prints for a value.
pub uninterp spec fn json_text(m: JsonModel) -> Seq<char>;

/// The member of an object under `key`, `None` for a missing key and for
/// anything that is not an object.
pub open spec fn member(m: JsonModel, key: Seq<char>) -> Option<JsonModel> {
    match m {
        JsonModel::Object(fields) => if fields.contains_key(key) {
            Some(fields[key])
        } else {
            None
        },
        _ => None,
    }
}

/// The models of a sequence of values, item by item.
pub open spec fn models(items: Seq<serde_json::Value>) -> Seq<JsonModel> {
    items.map_values(|v: serde_json::Value| json_model(v))
}

/// `serde_json::from_str::<Value>`: parses a whole text as one JSON value.
/// Claims only that the outcome is a function of the text, named
/// `json_parse`.
#[verifier::external_body]
pub(crate) fn parse_value(text: &str) -> (r: Result<serde_json::Value, serde_json::Error>)
    ensures
        match json_parse(text@) {
            Some(m) => r.is_ok() && json_model(r.unwrap()) == m,
            None => r.is_err(),
        },
{
    serde_json::from_str::<serde_json::Value>(text)
}

/// `Value::get` with a string index: the member of an object under `key`;
/// `None` for a missing key or a value that is no object.
#[verifier::external_body]
pub(crate) fn value_get<'a>(v: &'a serde_json::Value, key: &str) -> (r: Option<
    &'a serde_json::Value,
>)
    ensures
        match member(json_model(*v), key@) {
            Some(m) => r.is_some() && json_model(*r.unwrap()) == m,
            None => r.is_none(),
        },
{
    v.get(key)
}

/// `Value::as_str`: the text of a JSON string, `None` for any other value.
#[verifier::external_body]
pub(crate) fn value_as_str<'a>(v: &'a serde_json::Value) -> (r: Option<&'a str>)
    ensures
        match json_model(*v) {
            JsonModel::Text(s) => r.is_some() && r.unwrap()@ == s,
            _ => r.is_none(),
        },
{
    v.as_str()
}

/// `Value::as_bool`: the truth value of a JSON boolean, `None` for any other
/// value.
#[verifier::external_body]
pub(crate) fn value_as_bool(v: &serde_json::Value) -> (r: Option<bool>)
    ensures
        r == match json_model(*v) {
            JsonModel::Bool(b) => Some(b),
            _ => None,
        },
{
    v.as_bool()
}

/// `Value::as_u64`: the integer of a JSON number stored as a non-negative
/// integer, `None` for negative integers, doubles and non-numbers.
#[verifier::external_body]
pub(crate) fn value_as_u64(v: &serde_json::Value) -> (r: Option<u64>)
    ensures
        r == match json_model(*v) {
            JsonModel::Number(NumberModel::Unsigned(n)) => Some(n),
            _ => None,
        },
{
    v.as_u64()
}

/// `Value::is_null`: whether the value is JSON `null`.
#[verifier::external_body]
pub(crate) fn value_is_null(v: &serde_json::Value) -> (r: bool)
    ensures
        r == (json_model(*v) is Null),
{
    v.is_null()
}

/// `Value`'s `Display` impl through `to_string`: the compact JSON text of the
/// value. Claims only that the text is a function of the content, named
/// `json_text`.
#[verifier::external_body]
pub(crate) fn value_text(v: &serde_json::Value) -> (r: String)
    ensures
        r@ == json_text(json_model(*v)),
{
    v.to_string()
}

/// The `Value::Null` variant: JSON `null`.
#[verifier::external_body]
pub(crate) fn value_null() -> (r: serde_json::Value)
    ensures
        json_model(r) is Null,
{
    serde_json::Value::Null
}

/// `Value::from(bool)`: the JSON boolean.
#[verifier::external_body]
pub(crate) fn value_bool(b: bool) -> (r: serde_json::Value)
    ensures
        json_model(r) == JsonModel::Bool(b),
{
    serde_json::Value::from(b)
}

/// `Value::from(u64)`: the JSON number stored as a non-negative integer.
#[verifier::external_body]
pub(crate) fn value_unsigned(n: u64) -> (r: serde_json::Value)
    ensures
        json_model(r) == JsonModel::Number(NumberModel::Unsigned(n)),
{
    serde_json::Value::from(n)
}

/// `Value::from(&str)`: the JSON string with the same characters.
#[verifier::external_body]
pub(crate) fn value_string(s: &str) -> (r: serde_json::Value)
    ensures
        json_model(r) == JsonModel::Text(s@),
{
    serde_json::Value::from(s)
}

/// The `Value::Array` variant: the JSON array of the items in their order.
#[verifier::external_body]
pub(crate) fn value_array(items: Vec<serde_json::Value>) -> (r: serde_json::Value)
    ensures
        json_model(r) == JsonModel::Array(models(items@)),
{
    serde_json::Value::Array(items)
}

/// `Map::new` inside `Value::Object`: the JSON object without members.
#[verifier::external_body]
pub(crate) fn object_new() -> (r: serde_json::Value)
    ensures
        json_model(r) == JsonModel::Object(Map::empty()),
{
    serde_json::Value::Object(serde_json::Map::new())
}

/// `Map::insert` on the map of an object: sets the member under `key`,
/// replacing one that was there, and leaves the other members alone.
#[verifier::external_body]
pub(crate) fn object_insert(obj: &mut serde_json::Value, key: &str, item: serde_json::Value)
    requires
        json_model(*old(obj)) is Object,
    ensures
        json_model(*final(obj)) == JsonModel::Object(
            json_model(*old(obj))->Object_0.insert(key@, json_model(item)),
        ),
{
    if let serde_json::Value::Object(fields) = obj {
        fields.insert(key.to_owned(), item);
    }
}

} // verus!
