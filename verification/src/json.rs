//! JSON documents.
//!
//! Parsing, printing and the document tree itself come from `serde_json`.
//! Verified code never looks inside a `serde_json::Value`; it reasons about
//! the mathematical tree [`Json`] that [`json_model`] assigns to a value, and
//! reaches the value only through the small functions of this module, each of
//! which states what the corresponding `serde_json` function does to that
//! tree. Those statements are taken on trust from the `serde_json` sources.

use vstd::prelude::*;

verus! {

/// `serde_json::Value`, held without looking inside.
#[verifier::external_type_specification]
#[verifier::external_body]
pub struct ExValue(serde_json::Value);

/// `serde_json::Error`, the parser's report on a text that is no JSON
/// document. It is carried to the caller as it is.
#[verifier::external_type_specification]
#[verifier::external_body]
pub struct ExJsonError(serde_json::Error);

/// A JSON number: an integer between `i64::MIN` and `u64::MAX`, or a finite
/// binary64 floating-point number given by its IEEE 754 bit pattern.
pub ghost enum JsonNumber {
    Integer(int),
    Float(u64),
}

/// A JSON document as a mathematical tree. Objects are maps: member order
/// is not part of a document and a name occurs at most once.
pub ghost enum Json {
    Null,
    Bool(bool),
    Number(JsonNumber),
    String(Seq<char>),
    Array(Seq<Json>),
    Object(Map<Seq<char>, Json>),
}

/// The tree that a `serde_json::Value` holds.
pub uninterp spec fn json_model(value: serde_json::Value) -> Json;

/// The outcome of `serde_json::from_str::<Value>` on a text: the tree of the
/// parsed document, or `None` where the parser reports an error.
pub uninterp spec fn json_parse(text: Seq<char>) -> Option<Json>;

/// The compact text that `serde_json` prints for a document: no white
/// space, the members of an object in the order of their names.
pub uninterp spec fn json_text(document: Json) -> Seq<char>;

impl Json {
    /// The member `name` of an object; `None` for a missing member and for
    /// anything that is not an object.
    pub open spec fn member(self, name: Seq<char>) -> Option<Json> {
        match self {
            Json::Object(members) => if members.dom().contains(name) {
                Some(members[name])
            } else {
                None
            },
            _ => None,
        }
    }

    /// The text of a string document.
    pub open spec fn as_text(self) -> Option<Seq<char>> {
        match self {
            Json::String(text) => Some(text),
            _ => None,
        }
    }

    /// The items of an array document.
    pub open spec fn as_items(self) -> Option<Seq<Json>> {
        match self {
            Json::Array(items) => Some(items),
            _ => None,
        }
    }

    /// The value of an integer document that fits a signed 64-bit number.
    pub open spec fn as_signed(self) -> Option<i64> {
        match self {
            Json::Number(JsonNumber::Integer(n)) => if i64::MIN <= n <= i64::MAX {
                Some(n as i64)
            } else {
                None
            },
            _ => None,
        }
    }

    /// The value of an integer document that fits an unsigned 64-bit number.
    pub open spec fn as_unsigned(self) -> Option<u64> {
        match self {
            Json::Number(JsonNumber::Integer(n)) => if 0 <= n <= u64::MAX {
                Some(n as u64)
            } else {
                None
            },
            _ => None,
        }
    }

    /// The value of a boolean document.
    pub open spec fn as_boolean(self) -> Option<bool> {
        match self {
            Json::Bool(b) => Some(b),
            _ => None,
        }
    }
}

/// The trees of a sequence of values, item by item.
pub open spec fn json_models(values: Seq<serde_json::Value>) -> Seq<Json> {
    Seq::new(values.len(), |i: int| json_model(values[i]))
}

/// The tree held by an optional JSON value.
pub open spec fn opt_json_model(value: Option<serde_json::Value>) -> Option<Json> {
    match value {
        Some(v) => Some(json_model(v)),
        None => None,
    }
}

/// The tree behind an optional reference to a JSON value.
pub open spec fn opt_json_ref_model(value: Option<&serde_json::Value>) -> Option<Json> {
    match value {
        Some(v) => Some(json_model(*v)),
        None => None,
    }
}

/// `serde_json::from_str::<Value>`: parses a text as one JSON document. It
/// succeeds exactly on the texts that `json_parse` maps to a tree, and the
/// value it returns holds that tree.
#[verifier::external_body]
pub(crate) fn parse(text: &str) -> (r: Result<serde_json::Value, serde_json::Error>)
    ensures
        r is Ok <==> json_parse(text@) is Some,
        r matches Ok(value) ==> Some(json_model(value)) == json_parse(text@),
{
    serde_json::from_str::<serde_json::Value>(text)
}

/// `Display` for `serde_json::Value`: prints the document in compact form.
#[verifier::external_body]
pub(crate) fn print(value: &serde_json::Value) -> (r: String)
    ensures
        r@ == json_text(json_model(*value)),
{
    value.to_string()
}

/// `Value::get` with a string index: the member of that name when the value
/// is an object that has one, otherwise nothing.
#[verifier::external_body]
pub(crate) fn get<'a>(value: &'a serde_json::Value, name: &str) -> (r: Option<&'a serde_json::Value>)
    ensures
        json_model(*value).member(name@) == match r {
            Some(member) => Some(json_model(*member)),
            None => None,
        },
{
    value.get(name)
}

/// `Value::as_str`: the text when the value is a string.
#[verifier::external_body]
pub(crate) fn as_str<'a>(value: &'a serde_json::Value) -> (r: Option<&'a str>)
    ensures
        json_model(*value).as_text() == match r {
            Some(text) => Some(text@),
            None => None,
        },
{
    value.as_str()
}

/// `Value::as_array`: the items when the value is an array.
#[verifier::external_body]
pub(crate) fn as_array<'a>(value: &'a serde_json::Value) -> (r: Option<&'a Vec<serde_json::Value>>)
    ensures
        json_model(*value).as_items() == match r {
            Some(items) => Some(json_models(items@)),
            None => None,
        },
{
    value.as_array()
}

/// `Value::as_i64`: the number when the value is an integer that fits `i64`.
#[verifier::external_body]
pub(crate) fn as_i64(value: &serde_json::Value) -> (r: Option<i64>)
    ensures
        r == json_model(*value).as_signed(),
{
    value.as_i64()
}

/// `Value::as_u64`: the number when the value is a non-negative integer.
#[verifier::external_body]
pub(crate) fn as_u64(value: &serde_json::Value) -> (r: Option<u64>)
    ensures
        r == json_model(*value).as_unsigned(),
{
    value.as_u64()
}

/// `Value::as_bool`: the truth value when the value is a boolean.
#[verifier::external_body]
pub(crate) fn as_bool(value: &serde_json::Value) -> (r: Option<bool>)
    ensures
        r == json_model(*value).as_boolean(),
{
    value.as_bool()
}

/// `Value::is_null`: whether the value is `null`.
#[verifier::external_body]
pub(crate) fn is_null(value: &serde_json::Value) -> (r: bool)
    ensures
        r == (json_model(*value) is Null),
{
    value.is_null()
}

/// `Value::is_object`: whether the value is an object.
#[verifier::external_body]
pub(crate) fn is_object(value: &serde_json::Value) -> (r: bool)
    ensures
        r == (json_model(*value) is Object),
{
    value.is_object()
}

/// `Clone` for `serde_json::Value`: a value that holds the same tree.
#[verifier::external_body]
pub(crate) fn duplicate(value: &serde_json::Value) -> (r: serde_json::Value)
    ensures
        json_model(r) == json_model(*value),
{
    value.clone()
}

/// `Value::from(&str)`: a string document with the given text.
#[verifier::external_body]
pub(crate) fn string(text: &str) -> (r: serde_json::Value)
    ensures
        json_model(r) == Json::String(text@),
{
    serde_json::Value::from(text)
}

/// `Value::from(i64)`: an integer document with the given value.
#[verifier::external_body]
pub(crate) fn integer(n: i64) -> (r: serde_json::Value)
    ensures
        json_model(r) == Json::Number(JsonNumber::Integer(n as int)),
{
    serde_json::Value::from(n)
}

/// `Value::from(Vec<Value>)`: an array document with the given items.
#[verifier::external_body]
pub(crate) fn array(items: Vec<serde_json::Value>) -> (r: serde_json::Value)
    ensures
        json_model(r) == Json::Array(json_models(items@)),
{
    serde_json::Value::from(items)
}

/// `Value::from(Map::new())`: an object document without members.
#[verifier::external_body]
pub(crate) fn object() -> (r: serde_json::Value)
    ensures
        json_model(r) == Json::Object(Map::empty()),
{
    serde_json::Value::from(serde_json::Map::new())
}

/// `IndexMut` for `serde_json::Value` with a string index, on an object:
/// sets the member `name` to `member`, replacing an earlier member of that
/// name.
#[verifier::external_body]
pub(crate) fn insert(target: &mut serde_json::Value, name: &str, member: serde_json::Value)
    requires
        json_model(*old(target)) is Object,
    ensures
        json_model(*final(target)) == Json::Object(
            json_model(*old(target))->Object_0.insert(name@, json_model(member)),
        ),
{
    target[name] = member;
}

} // verus!
