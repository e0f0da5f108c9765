//! JSON documents, as far as the client reads and writes them.
//!
//! A document is looked at one level at a time: [`JsonValue`] tells what its
//! outermost value is, and an object stays in the `serde_json` map that holds it.

use crate::text::option_view;
use serde_json::Error as JsonError;
use serde_json::Map as ObjectMap;
use serde_json::Number;
use serde_json::Value;
use vstd::prelude::*;
use vstd::utf8::encode_utf8;

verus! {

/// `serde_json`'s object type, opaque: [`members`] names what it holds.
#[verifier::external_type_specification]
#[verifier::external_body]
#[verifier::reject_recursive_types(K)]
#[verifier::reject_recursive_types(V)]
pub struct ExObjectMap<K, V>(serde_json::Map<K, V>);

/// `serde_json`'s document type, opaque: it is only carried.
#[verifier::external_type_specification]
#[verifier::external_body]
pub struct ExValue(serde_json::Value);

/// `serde_json`'s number type, opaque: [`number_u64`] names what is read of it.
#[verifier::external_type_specification]
#[verifier::external_body]
pub struct ExNumber(serde_json::Number);

/// `serde_json`'s error type, opaque: it is only carried.
#[verifier::external_type_specification]
#[verifier::external_body]
pub struct ExJsonError(JsonError);

/// `Clone` of `serde_json`'s object type: a copy that equals the object.
pub assume_specification [<serde_json::Map<String, serde_json::Value> as Clone>::clone] (
    object: &serde_json::Map<String, serde_json::Value>,
) -> (copy: serde_json::Map<String, serde_json::Value>)
    ensures
        copy == *object,
;

/// `Clone` of `serde_json`'s number type: a copy that equals the number.
pub assume_specification [<serde_json::Number as Clone>::clone] (
    number: &serde_json::Number,
) -> (copy: serde_json::Number)
    ensures
        copy == *number,
;

/// The outermost value of a JSON document.
#[derive(Debug, Clone)]
pub enum JsonValue {
    Null,
    Bool(bool),
    Number(Number),
    String(String),
    Array(Vec<Value>),
    Object(ObjectMap<String, Value>),
}

/// What a [`JsonValue`] stands for: the same value over mathematical text and
/// sequences.
pub enum Json {
    Null,
    Bool(bool),
    Number(Number),
    String(Seq<char>),
    Array(Seq<Value>),
    Object(ObjectMap<String, Value>),
}

impl View for JsonValue {
    type V = Json;

    open spec fn view(&self) -> Json {
        match *self {
            JsonValue::Null => Json::Null,
            JsonValue::Bool(b) => Json::Bool(b),
            JsonValue::Number(n) => Json::Number(n),
            JsonValue::String(s) => Json::String(s@),
            JsonValue::Array(a) => Json::Array(a@),
            JsonValue::Object(o) => Json::Object(o),
        }
    }
}

/// The members of a JSON object: what each key is mapped to.
pub uninterp spec fn members(object: serde_json::Map<String, serde_json::Value>) -> Map<Seq<char>, Json>;

/// The integer that a JSON number is, where it is one from zero to `u64::MAX`.
pub uninterp spec fn number_u64(number: serde_json::Number) -> Option<u64>;

/// What `serde_json` reads from some bytes: the outermost value of a JSON document,
/// or why there is none.
pub uninterp spec fn json_parse(bytes: Seq<u8>) -> Result<Json, JsonError>;

/// The outermost value of the JSON document that `serde_json` reads from some
/// bytes, or `None` where it reads none from them.
pub open spec fn json_text(bytes: Seq<u8>) -> Option<Json> {
    match json_parse(bytes) {
        Ok(json) => Some(json),
        Err(_) => None,
    }
}

/// The members of an object that has none.
pub open spec fn no_members() -> Map<Seq<char>, Json> {
    Map::empty()
}

/// `serde_json::Map::new`: an object without members.
#[verifier::external_body]
pub(crate) fn object_new() -> (object: ObjectMap<String, Value>)
    ensures
        members(object) == no_members(),
{
    ObjectMap::new()
}

/// `serde_json::Map::insert`: afterwards `key` is mapped to `value`, whatever it
/// was mapped to before, and every other member is as it was.
#[verifier::external_body]
pub(crate) fn object_insert(object: &mut ObjectMap<String, Value>, key: String, value: JsonValue)
    ensures
        members(*final(object)) == members(*old(object)).insert(key@, value@),
{
    let value = match value {
        JsonValue::Null => Value::Null,
        JsonValue::Bool(b) => Value::Bool(b),
        JsonValue::Number(n) => Value::Number(n),
        JsonValue::String(s) => Value::String(s),
        JsonValue::Array(a) => Value::Array(a),
        JsonValue::Object(o) => Value::Object(o),
    };
    object.insert(key, value);
}

/// `serde_json::Map::get`: what `key` is mapped to, if it is.
#[verifier::external_body]
pub(crate) fn object_get(object: &ObjectMap<String, Value>, key: &str) -> (found: Option<JsonValue>)
    ensures
        match found {
            Some(value) => members(*object).contains_pair(key@, value@),
            None => !members(*object).contains_key(key@),
        },
{
    object.get(key).map(|value| match value.clone() {
        Value::Null => JsonValue::Null,
        Value::Bool(b) => JsonValue::Bool(b),
        Value::Number(n) => JsonValue::Number(n),
        Value::String(s) => JsonValue::String(s),
        Value::Array(a) => JsonValue::Array(a),
        Value::Object(o) => JsonValue::Object(o),
    })
}

/// The members that entries make up, the later of two under one key counting.
pub open spec fn entry_members(entries: Seq<(String, JsonValue)>) -> Map<Seq<char>, Json>
    decreases entries.len(),
{
    if entries.len() == 0 {
        no_members()
    } else {
        entry_members(entries.drop_last()).insert(entries.last().0@, entries.last().1@)
    }
}

/// `serde_json::Map::into_iter`: the members one by one.
#[verifier::external_body]
pub(crate) fn object_into_entries(object: ObjectMap<String, Value>) -> (entries: Vec<
    (String, JsonValue),
>)
    ensures
        entry_members(entries@) == members(object),
{
    let convert = |value| match value {
        Value::Null => JsonValue::Null,
        Value::Bool(b) => JsonValue::Bool(b),
        Value::Number(n) => JsonValue::Number(n),
        Value::String(s) => JsonValue::String(s),
        Value::Array(a) => JsonValue::Array(a),
        Value::Object(o) => JsonValue::Object(o),
    };
    object.into_iter().map(|(key, value)| (key, convert(value))).collect()
}

/// `serde_json::Number::as_u64`, under the name [`number_u64`].
#[verifier::external_body]
pub(crate) fn number_as_u64(number: &Number) -> (integer: Option<u64>)
    ensures
        integer == number_u64(*number),
{
    number.as_u64()
}

/// The bytes of the JSON text `null`.
pub open spec fn null_text() -> Seq<u8> {
    encode_utf8("null"@)
}

/// `serde_json::from_slice` into a document, under the name [`json_parse`]. The
/// text `null` is read as null.
#[verifier::external_body]
pub(crate) fn parse_json(bytes: &[u8]) -> (parsed: Result<JsonValue, JsonError>)
    ensures
        match parsed {
            Ok(value) => json_parse(bytes@) matches Ok(json) && json == value@,
            Err(error) => json_parse(bytes@) matches Err(found) && found == error,
        },
        bytes@ == null_text() ==> parsed is Ok && parsed->Ok_0@ is Null,
{
    serde_json::from_slice::<Value>(bytes).map(|value| match value {
        Value::Null => JsonValue::Null,
        Value::Bool(b) => JsonValue::Bool(b),
        Value::Number(n) => JsonValue::Number(n),
        Value::String(s) => JsonValue::String(s),
        Value::Array(a) => JsonValue::Array(a),
        Value::Object(o) => JsonValue::Object(o),
    })
}

impl Json {
    /// The member of an object under `key`. What is no object has no members.
    pub open spec fn member(self, key: Seq<char>) -> Option<Json> {
        match self {
            Json::Object(o) if members(o).contains_key(key) => Some(members(o)[key]),
            _ => None,
        }
    }

    /// The text of a JSON string.
    pub open spec fn text(self) -> Option<Seq<char>> {
        match self {
            Json::String(s) => Some(s),
            _ => None,
        }
    }

    /// The integer that a JSON number is, where it is one from zero to `u64::MAX`.
    pub open spec fn unsigned(self) -> Option<u64> {
        match self {
            Json::Number(n) => number_u64(n),
            _ => None,
        }
    }

    /// The items of a JSON array.
    pub open spec fn items(self) -> Option<Seq<Value>> {
        match self {
            Json::Array(a) => Some(a),
            _ => None,
        }
    }
}

impl JsonValue {
    /// The member of an object under `key`, if there is one.
    pub fn get(&self, key: &str) -> (found: Option<JsonValue>)
        ensures
            option_view(found) == self@.member(key@),
    {
        match self {
            JsonValue::Object(object) => object_get(object, key),
            _ => None,
        }
    }

    /// The text of a JSON string.
    pub fn as_str(&self) -> (text: Option<&str>)
        ensures
            option_view(text) == self@.text(),
    {
        match self {
            JsonValue::String(s) => Some(s.as_str()),
            _ => None,
        }
    }

    /// The integer that a JSON number is, where it is one from zero to `u64::MAX`.
    pub fn as_u64(&self) -> (integer: Option<u64>)
        ensures
            integer == self@.unsigned(),
    {
        match self {
            JsonValue::Number(number) => number_as_u64(number),
            _ => None,
        }
    }

    /// The items of a JSON array.
    pub fn into_array(self) -> (items: Option<Vec<Value>>)
        ensures
            option_view(items) == self@.items(),
    {
        match self {
            JsonValue::Array(items) => Some(items),
            _ => None,
        }
    }
}

} // verus!
