//! Reading members of JSON objects.
//!
//! Each reader comes as a pair: a mathematical function on the tree of a
//! document, and an executable function on the document itself that
//! returns what the mathematical one says. Both report a member that is
//! missing or of the wrong kind by its name.
//!
//! A member that may be absent is also taken as absent where the document
//! holds `null` for it.

use crate::error::DecodeError;
use crate::json::{json_model, json_models, opt_json_model, Json};
use vstd::prelude::*;
use vstd::string::*;

verus! {

/// The member `name`, with `null` taken as absent.
pub open spec fn present(doc: Json, name: Seq<char>) -> Option<Json> {
    match doc.member(name) {
        Some(Json::Null) => None,
        other => other,
    }
}

/// A string that must be there.
pub open spec fn required_text(doc: Json, name: Seq<char>) -> Result<Seq<char>, Seq<char>> {
    match doc.member(name) {
        Some(Json::String(text)) => Ok(text),
        _ => Err(name),
    }
}

/// A string that may be absent.
pub open spec fn optional_text(doc: Json, name: Seq<char>) -> Result<
    Option<Seq<char>>,
    Seq<char>,
> {
    match present(doc, name) {
        None => Ok(None),
        Some(Json::String(text)) => Ok(Some(text)),
        Some(_) => Err(name),
    }
}

/// A number that must be there and fit an unsigned 32-bit integer.
pub open spec fn required_u32(doc: Json, name: Seq<char>) -> Result<u32, Seq<char>> {
    match doc.member(name) {
        Some(member) => match member.as_unsigned() {
            Some(n) => if n <= u32::MAX {
                Ok(n as u32)
            } else {
                Err(name)
            },
            None => Err(name),
        },
        None => Err(name),
    }
}

/// A number that must be there and fit a signed 32-bit integer.
pub open spec fn required_i32(doc: Json, name: Seq<char>) -> Result<i32, Seq<char>> {
    match doc.member(name) {
        Some(member) => match member.as_signed() {
            Some(n) => if i32::MIN <= n <= i32::MAX {
                Ok(n as i32)
            } else {
                Err(name)
            },
            None => Err(name),
        },
        None => Err(name),
    }
}

/// A truth value that must be there.
pub open spec fn required_bool(doc: Json, name: Seq<char>) -> Result<bool, Seq<char>> {
    match doc.member(name) {
        Some(Json::Bool(b)) => Ok(b),
        _ => Err(name),
    }
}

/// A wire tag that must be there: the value it stands for, or the member's
/// name where the member is no string or the tag stands for nothing.
pub open spec fn required_tag<T>(
    doc: Json,
    name: Seq<char>,
    from_tag: spec_fn(Seq<char>) -> Option<T>,
) -> Result<T, Seq<char>> {
    match required_text(doc, name) {
        Err(at) => Err(at),
        Ok(tag) => match from_tag(tag) {
            Some(value) => Ok(value),
            None => Err(name),
        },
    }
}

/// A wire tag that may be absent: the value it stands for, or the member's
/// name where the tag stands for nothing.
pub open spec fn optional_tag<T>(
    doc: Json,
    name: Seq<char>,
    from_tag: spec_fn(Seq<char>) -> Option<T>,
) -> Result<Option<T>, Seq<char>> {
    match optional_text(doc, name) {
        Err(at) => Err(at),
        Ok(None) => Ok(None),
        Ok(Some(tag)) => match from_tag(tag) {
            Some(value) => Ok(Some(value)),
            None => Err(name),
        },
    }
}

/// An array of strings that must be there.
pub open spec fn required_texts(doc: Json, name: Seq<char>) -> Result<Seq<Seq<char>>, Seq<char>> {
    match required_array(doc, name) {
        Err(at) => Err(at),
        Ok(items) => if forall|i: int| 0 <= i < items.len() ==> (#[trigger] items[i]) is String {
            Ok(Seq::new(items.len(), |i: int| items[i]->String_0))
        } else {
            Err(name)
        },
    }
}

/// An object that must be there.
pub open spec fn required_object(doc: Json, name: Seq<char>) -> Result<Json, Seq<char>> {
    match doc.member(name) {
        Some(Json::Object(members)) => Ok(Json::Object(members)),
        _ => Err(name),
    }
}

/// An object that may be absent.
pub open spec fn optional_object(doc: Json, name: Seq<char>) -> Result<Option<Json>, Seq<char>> {
    match present(doc, name) {
        None => Ok(None),
        Some(Json::Object(members)) => Ok(Some(Json::Object(members))),
        Some(_) => Err(name),
    }
}

/// An array that must be there.
pub open spec fn required_array(doc: Json, name: Seq<char>) -> Result<Seq<Json>, Seq<char>> {
    match doc.member(name) {
        Some(Json::Array(items)) => Ok(items),
        _ => Err(name),
    }
}

/// An array that may be absent.
pub open spec fn optional_array(doc: Json, name: Seq<char>) -> Result<
    Option<Seq<Json>>,
    Seq<char>,
> {
    match present(doc, name) {
        None => Ok(None),
        Some(Json::Array(items)) => Ok(Some(items)),
        Some(_) => Err(name),
    }
}

/// The shape error that names a member.
pub fn shape(name: &str) -> (r: DecodeError)
    ensures
        r.is_shape(name@),
{
    DecodeError::Shape(name.to_owned())
}

/// Reads the member `name`, with `null` taken as absent.
pub fn read_present<'a>(doc: &'a serde_json::Value, name: &str) -> (r: Option<
    &'a serde_json::Value,
>)
    ensures
        present(json_model(*doc), name@) == match r {
            Some(member) => Some(json_model(*member)),
            None => None,
        },
{
    match crate::json::get(doc, name) {
        Some(member) => if crate::json::is_null(member) {
            None
        } else {
            Some(member)
        },
        None => None,
    }
}

/// Reads a string that must be there.
pub fn read_required_text(doc: &serde_json::Value, name: &str) -> (r: Result<String, DecodeError>)
    ensures
        match r {
            Ok(text) => required_text(json_model(*doc), name@) == Ok::<Seq<char>, Seq<char>>(
                text@,
            ),
            Err(e) => required_text(json_model(*doc), name@) is Err && e.is_shape(name@),
        },
{
    match crate::json::get(doc, name) {
        Some(member) => match crate::json::as_str(member) {
            Some(text) => Ok(text.to_owned()),
            None => Err(shape(name)),
        },
        None => Err(shape(name)),
    }
}

/// Reads a string that may be absent.
pub fn read_optional_text(doc: &serde_json::Value, name: &str) -> (r: Result<
    Option<String>,
    DecodeError,
>)
    ensures
        match r {
            Ok(text) => optional_text(json_model(*doc), name@) == Ok::<
                Option<Seq<char>>,
                Seq<char>,
            >(text.deep_view()),
            Err(e) => optional_text(json_model(*doc), name@) is Err && e.is_shape(name@),
        },
{
    match read_present(doc, name) {
        Some(member) => match crate::json::as_str(member) {
            Some(text) => Ok(Some(text.to_owned())),
            None => Err(shape(name)),
        },
        None => Ok(None),
    }
}

/// Reads a number that must be there and fit an unsigned 32-bit integer.
pub fn read_required_u32(doc: &serde_json::Value, name: &str) -> (r: Result<u32, DecodeError>)
    ensures
        match r {
            Ok(n) => required_u32(json_model(*doc), name@) == Ok::<u32, Seq<char>>(n),
            Err(e) => required_u32(json_model(*doc), name@) is Err && e.is_shape(name@),
        },
{
    match crate::json::get(doc, name) {
        Some(member) => match crate::json::as_u64(member) {
            Some(n) => if n <= 0xFFFF_FFFF {
                Ok(n as u32)
            } else {
                Err(shape(name))
            },
            None => Err(shape(name)),
        },
        None => Err(shape(name)),
    }
}

/// Reads a number that must be there and fit a signed 32-bit integer.
pub fn read_required_i32(doc: &serde_json::Value, name: &str) -> (r: Result<i32, DecodeError>)
    ensures
        match r {
            Ok(n) => required_i32(json_model(*doc), name@) == Ok::<i32, Seq<char>>(n),
            Err(e) => required_i32(json_model(*doc), name@) is Err && e.is_shape(name@),
        },
{
    match crate::json::get(doc, name) {
        Some(member) => match crate::json::as_i64(member) {
            Some(n) => if -0x8000_0000 <= n && n <= 0x7FFF_FFFF {
                Ok(n as i32)
            } else {
                Err(shape(name))
            },
            None => Err(shape(name)),
        },
        None => Err(shape(name)),
    }
}

/// Reads a truth value that must be there.
pub fn read_required_bool(doc: &serde_json::Value, name: &str) -> (r: Result<bool, DecodeError>)
    ensures
        match r {
            Ok(b) => required_bool(json_model(*doc), name@) == Ok::<bool, Seq<char>>(b),
            Err(e) => required_bool(json_model(*doc), name@) is Err && e.is_shape(name@),
        },
{
    match crate::json::get(doc, name) {
        Some(member) => match crate::json::as_bool(member) {
            Some(b) => Ok(b),
            None => Err(shape(name)),
        },
        None => Err(shape(name)),
    }
}

/// Reads an object that must be there.
pub fn read_required_object<'a>(doc: &'a serde_json::Value, name: &str) -> (r: Result<
    &'a serde_json::Value,
    DecodeError,
>)
    ensures
        match r {
            Ok(member) => required_object(json_model(*doc), name@) == Ok::<Json, Seq<char>>(
                json_model(*member),
            ),
            Err(e) => required_object(json_model(*doc), name@) is Err && e.is_shape(name@),
        },
{
    match crate::json::get(doc, name) {
        Some(member) => if crate::json::is_object(member) {
            Ok(member)
        } else {
            Err(shape(name))
        },
        None => Err(shape(name)),
    }
}

/// Reads an object that may be absent.
pub fn read_optional_object<'a>(doc: &'a serde_json::Value, name: &str) -> (r: Result<
    Option<&'a serde_json::Value>,
    DecodeError,
>)
    ensures
        match r {
            Ok(Some(member)) => optional_object(json_model(*doc), name@) == Ok::<
                Option<Json>,
                Seq<char>,
            >(Some(json_model(*member))),
            Ok(None) => optional_object(json_model(*doc), name@) == Ok::<Option<Json>, Seq<char>>(
                None,
            ),
            Err(e) => optional_object(json_model(*doc), name@) is Err && e.is_shape(name@),
        },
{
    match read_present(doc, name) {
        Some(member) => if crate::json::is_object(member) {
            Ok(Some(member))
        } else {
            Err(shape(name))
        },
        None => Ok(None),
    }
}

/// Reads an array that must be there.
pub fn read_required_array<'a>(doc: &'a serde_json::Value, name: &str) -> (r: Result<
    &'a Vec<serde_json::Value>,
    DecodeError,
>)
    ensures
        match r {
            Ok(items) => required_array(json_model(*doc), name@) == Ok::<Seq<Json>, Seq<char>>(
                json_models(items@),
            ),
            Err(e) => required_array(json_model(*doc), name@) is Err && e.is_shape(name@),
        },
{
    match crate::json::get(doc, name) {
        Some(member) => match crate::json::as_array(member) {
            Some(items) => Ok(items),
            None => Err(shape(name)),
        },
        None => Err(shape(name)),
    }
}

/// Reads an array that may be absent.
pub fn read_optional_array<'a>(doc: &'a serde_json::Value, name: &str) -> (r: Result<
    Option<&'a Vec<serde_json::Value>>,
    DecodeError,
>)
    ensures
        match r {
            Ok(Some(items)) => optional_array(json_model(*doc), name@) == Ok::<
                Option<Seq<Json>>,
                Seq<char>,
            >(Some(json_models(items@))),
            Ok(None) => optional_array(json_model(*doc), name@) == Ok::<
                Option<Seq<Json>>,
                Seq<char>,
            >(None),
            Err(e) => optional_array(json_model(*doc), name@) is Err && e.is_shape(name@),
        },
{
    match read_present(doc, name) {
        Some(member) => match crate::json::as_array(member) {
            Some(items) => Ok(Some(items)),
            None => Err(shape(name)),
        },
        None => Ok(None),
    }
}

/// Reads an array of strings that must be there.
pub fn read_required_texts(doc: &serde_json::Value, name: &str) -> (r: Result<
    Vec<String>,
    DecodeError,
>)
    ensures
        match r {
            Ok(texts) => required_texts(json_model(*doc), name@) == Ok::<
                Seq<Seq<char>>,
                Seq<char>,
            >(texts.deep_view()),
            Err(e) => required_texts(json_model(*doc), name@) is Err && e.is_shape(name@),
        },
{
    let items = read_required_array(doc, name)?;
    let ghost docs = json_models(items@);
    let mut texts: Vec<String> = Vec::new();
    let mut i: usize = 0;
    while i < items.len()
        invariant
            i <= items.len(),
            docs == json_models(items@),
            required_array(json_model(*doc), name@) == Ok::<Seq<Json>, Seq<char>>(docs),
            texts.len() == i,
            forall|k: int| 0 <= k < i ==> docs[k] == Json::String((#[trigger] texts[k])@),
        decreases items.len() - i,
    {
        match crate::json::as_str(&items[i]) {
            Some(text) => {
                texts.push(text.to_owned());
            },
            None => {
                assert(!(docs[i as int] is String));
                return Err(shape(name));
            },
        }
        i += 1;
    }
    proof {
        assert forall|k: int| 0 <= k < docs.len() implies (#[trigger] docs[k]) is String by {
            assert(docs[k] == Json::String(texts[k]@));
        }
        assert(texts.deep_view() =~= Seq::new(docs.len(), |i: int| docs[i]->String_0));
    }
    Ok(texts)
}

/// Reads a member of any kind that may be absent, as a document of its own.
pub fn read_optional_value(doc: &serde_json::Value, name: &str) -> (r: Option<serde_json::Value>)
    ensures
        present(json_model(*doc), name@) == opt_json_model(r),
{
    match read_present(doc, name) {
        Some(member) => Some(crate::json::duplicate(member)),
        None => None,
    }
}

/// Reads every item of an array with the same reader. The first item that
/// cannot be read decides the error.
pub open spec fn decode_each<T>(
    items: Seq<Json>,
    decode: spec_fn(Json) -> Result<T, Seq<char>>,
) -> Result<Seq<T>, Seq<char>>
    decreases items.len(),
{
    if items.len() == 0 {
        Ok(Seq::empty())
    } else {
        match decode_each(items.drop_last(), decode) {
            Err(name) => Err(name),
            Ok(done) => match decode(items.last()) {
                Ok(item) => Ok(done.push(item)),
                Err(name) => Err(name),
            },
        }
    }
}

/// Reading one more item after a prefix: the prefix decides if it fails,
/// otherwise the item is read and added.
pub proof fn lemma_decode_each_step<T>(
    items: Seq<Json>,
    decode: spec_fn(Json) -> Result<T, Seq<char>>,
    k: int,
)
    requires
        0 <= k < items.len(),
    ensures
        decode_each(items.take(k + 1), decode) == match decode_each(items.take(k), decode) {
            Err(name) => Err::<Seq<T>, Seq<char>>(name),
            Ok(done) => match decode(items[k]) {
                Ok(item) => Ok(done.push(item)),
                Err(name) => Err(name),
            },
        },
{
    assert(items.take(k + 1).drop_last() =~= items.take(k));
    assert(items.take(k + 1).last() == items[k]);
}

/// A prefix that cannot be read decides the outcome for the whole array.
pub proof fn lemma_decode_each_failure<T>(
    items: Seq<Json>,
    decode: spec_fn(Json) -> Result<T, Seq<char>>,
    k: int,
)
    requires
        0 <= k <= items.len(),
        decode_each(items.take(k), decode) is Err,
    ensures
        decode_each(items, decode) == decode_each(items.take(k), decode),
    decreases items.len() - k,
{
    if k == items.len() {
        assert(items.take(k) =~= items);
    } else {
        lemma_decode_each_step(items, decode, k);
        lemma_decode_each_failure(items, decode, k + 1);
    }
}

} // verus!
