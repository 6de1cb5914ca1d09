//! Writing members of JSON objects.
//!
//! A member is written where there is a value and left out where there is
//! none. Nothing is ever written as `null` in place of a missing value.

use crate::json::{json_model, opt_json_model, Json, JsonNumber};
use vstd::prelude::*;

verus! {

/// The members with `name` set to `value` where there is a value, and the
/// members unchanged where there is none.
pub open spec fn with_member(
    members: Map<Seq<char>, Json>,
    name: Seq<char>,
    value: Option<Json>,
) -> Map<Seq<char>, Json> {
    match value {
        Some(v) => members.insert(name, v),
        None => members,
    }
}

/// A text as a string document.
pub open spec fn text_json(text: Option<Seq<char>>) -> Option<Json> {
    match text {
        Some(t) => Some(Json::String(t)),
        None => None,
    }
}

/// A number as an integer document.
pub open spec fn number_json(n: int) -> Json {
    Json::Number(JsonNumber::Integer(n))
}

/// Texts as an array of string documents.
pub open spec fn texts_json(texts: Seq<Seq<char>>) -> Json {
    Json::Array(Seq::new(texts.len(), |i: int| Json::String(texts[i])))
}

/// Writes the member `name` where there is a value.
pub(crate) fn put(target: &mut serde_json::Value, name: &str, value: Option<serde_json::Value>)
    requires
        json_model(*old(target)) is Object,
    ensures
        json_model(*final(target)) == Json::Object(
            with_member(json_model(*old(target))->Object_0, name@, opt_json_model(value)),
        ),
{
    match value {
        Some(member) => {
            crate::json::insert(target, name, member);
        },
        None => {},
    }
}

/// Writes the string member `name` where there is a text.
pub(crate) fn put_text(target: &mut serde_json::Value, name: &str, text: Option<&str>)
    requires
        json_model(*old(target)) is Object,
    ensures
        json_model(*final(target)) == Json::Object(
            with_member(json_model(*old(target))->Object_0, name@, text_json(text.deep_view())),
        ),
{
    match text {
        Some(t) => {
            crate::json::insert(target, name, crate::json::string(t));
        },
        None => {},
    }
}

/// An array of string documents.
pub fn texts(items: &Vec<String>) -> (r: serde_json::Value)
    ensures
        json_model(r) == texts_json(items.deep_view()),
{
    let mut documents: Vec<serde_json::Value> = Vec::new();
    let mut i: usize = 0;
    while i < items.len()
        invariant
            i <= items.len(),
            documents.len() == i,
            forall|k: int| 0 <= k < i ==> json_model(#[trigger] documents[k]) == Json::String(
                items[k]@,
            ),
        decreases items.len() - i,
    {
        documents.push(crate::json::string(items[i].as_str()));
        i += 1;
    }
    let r = crate::json::array(documents);
    assert(crate::json::json_models(documents@) =~= Seq::new(
        items.deep_view().len(),
        |i: int| Json::String(items.deep_view()[i]),
    ));
    r
}

} // verus!
