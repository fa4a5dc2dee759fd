//! JSON documents: what a parsed document holds, and how the members of an object are read.

use vstd::prelude::*;

verus! {

/// A JSON document as a mathematical value.
pub enum Json {
    Null,
    Bool(bool),
    /// A number. The payload is its value where it is held as an integer of 64 bits, signed
    /// or unsigned, and `None` where it is held in any other form.
    Number(Option<int>),
    Text(Seq<char>),
    Array(Seq<Json>),
    Object(Map<Seq<char>, Json>),
}

#[verifier::external_type_specification]
#[verifier::external_body]
pub struct ExValue(serde_json::Value);

/// The document that a `serde_json::Value` holds.
pub uninterp spec fn json_view(value: serde_json::Value) -> Json;

/// The document that a text denotes, where the text is JSON.
pub uninterp spec fn json_document(text: Seq<u8>) -> Option<Json>;

/// The documents that a sequence of values holds.
pub open spec fn json_views(values: Seq<serde_json::Value>) -> Seq<Json> {
    values.map_values(|value: serde_json::Value| json_view(value))
}

/// `serde_json::from_slice` at the type `serde_json::Value` parses the whole text as one
/// JSON document. Whether it succeeds, and the document it gives, depend on the text alone.
/// A text that is not JSON gives `None`.
#[verifier::external_body]
pub(crate) fn parse_document(text: &[u8]) -> (parsed: Option<serde_json::Value>)
    ensures
        match parsed {
            Some(value) => json_document(text@) == Some(json_view(value)),
            None => json_document(text@) is None,
        },
{
    serde_json::from_slice::<serde_json::Value>(text).ok()
}

/// `serde_json::Value::get` with a string as the index gives the member of that name where
/// the value is an object that has one, and `None` otherwise.
#[verifier::external_body]
pub(crate) fn get_member<'a>(value: &'a serde_json::Value, key: &str) -> (found: Option<
    &'a serde_json::Value,
>)
    ensures
        match found {
            Some(inner) => member(json_view(*value), key@) == Some(json_view(*inner)),
            None => member(json_view(*value), key@) is None,
        },
{
    value.get(key)
}

/// `serde_json::Value::as_str` gives the text of a string, and `None` for any other value.
#[verifier::external_body]
pub(crate) fn as_text<'a>(value: &'a serde_json::Value) -> (text: Option<&'a str>)
    ensures
        match text {
            Some(text) => json_view(*value) == Json::Text(text@),
            None => !(json_view(*value) is Text),
        },
{
    value.as_str()
}

/// `serde_json::Value::as_array` gives the items of an array, and `None` for any other value.
#[verifier::external_body]
pub(crate) fn as_items<'a>(value: &'a serde_json::Value) -> (items: Option<&'a Vec<serde_json::Value>>)
    ensures
        match items {
            Some(items) => json_view(*value) == Json::Array(json_views(items@)),
            None => !(json_view(*value) is Array),
        },
{
    value.as_array()
}

/// `serde_json::Value::as_u64` gives the value of a number that is held as an integer and is
/// not negative, and `None` for any other value.
#[verifier::external_body]
pub(crate) fn as_unsigned(value: &serde_json::Value) -> (number: Option<u64>)
    ensures
        match number {
            Some(number) => json_view(*value) == Json::Number(Some(number as int)),
            None => !(json_view(*value) matches Json::Number(Some(held)) && held >= 0),
        },
{
    value.as_u64()
}

/// `serde_json::Value::is_null` tells whether the value is `null`.
#[verifier::external_body]
pub(crate) fn is_null(value: &serde_json::Value) -> (null: bool)
    ensures
        null == (json_view(*value) is Null),
{
    value.is_null()
}

/// `Clone::clone` of a `serde_json::Value` gives a value that holds the same document.
#[verifier::external_body]
pub(crate) fn clone_value(value: &serde_json::Value) -> (copy: serde_json::Value)
    ensures
        json_view(copy) == json_view(*value),
{
    value.clone()
}

/// The member of an object under `key`. A value that is no object has no members.
pub open spec fn member(json: Json, key: Seq<char>) -> Option<Json> {
    match json {
        Json::Object(members) => if members.dom().contains(key) {
            Some(members[key])
        } else {
            None
        },
        _ => None,
    }
}

/// The member under `key` where there is one and it is not `null`.
pub open spec fn present(json: Json, key: Seq<char>) -> Option<Json> {
    match member(json, key) {
        Some(Json::Null) => None,
        found => found,
    }
}

/// How a member that a record must carry is read: it has to be there, and to read well.
pub open spec fn required<T>(found: Option<Json>, read: Option<T>) -> Option<T> {
    match found {
        Some(_) => read,
        None => None,
    }
}

/// How a member that a record may lack is read: `Some(None)` where it is absent, its value
/// where it is there and reads well, and `None` where it is there and does not.
pub open spec fn optional<T>(found: Option<Json>, read: Option<T>) -> Option<Option<T>> {
    match found {
        Some(_) => match read {
            Some(value) => Some(Some(value)),
            None => None,
        },
        None => Some(None),
    }
}

/// The text of a string.
pub open spec fn text_of(json: Json) -> Option<Seq<char>> {
    match json {
        Json::Text(text) => Some(text),
        _ => None,
    }
}

/// The texts of an array of strings.
pub open spec fn texts_of(json: Json) -> Option<Seq<Seq<char>>> {
    match json {
        Json::Array(items) => if forall|i: int|
            0 <= i < items.len() ==> text_of(#[trigger] items[i]) is Some {
            Some(Seq::new(items.len(), |i: int| text_of(items[i])->0))
        } else {
            None
        },
        _ => None,
    }
}

/// The value of a number that fits in 32 bits without a sign.
pub open spec fn unsigned_of(json: Json) -> Option<u32> {
    match json {
        Json::Number(Some(number)) => if 0 <= number <= u32::MAX {
            Some(number as u32)
        } else {
            None
        },
        _ => None,
    }
}

pub open spec fn required_text(json: Json, key: Seq<char>) -> Option<Seq<char>> {
    required(member(json, key), text_of(member(json, key)->0))
}

pub open spec fn optional_text(json: Json, key: Seq<char>) -> Option<Option<Seq<char>>> {
    optional(present(json, key), text_of(present(json, key)->0))
}

pub open spec fn required_texts(json: Json, key: Seq<char>) -> Option<Seq<Seq<char>>> {
    required(member(json, key), texts_of(member(json, key)->0))
}

pub open spec fn optional_texts(json: Json, key: Seq<char>) -> Option<Option<Seq<Seq<char>>>> {
    optional(present(json, key), texts_of(present(json, key)->0))
}

pub open spec fn optional_unsigned(json: Json, key: Seq<char>) -> Option<Option<u32>> {
    optional(present(json, key), unsigned_of(present(json, key)->0))
}

/// Looks up a member that may be absent: `null` counts as absent.
pub fn get_present<'a>(value: &'a serde_json::Value, key: &str) -> (found: Option<
    &'a serde_json::Value,
>)
    ensures
        match found {
            Some(inner) => present(json_view(*value), key@) == Some(json_view(*inner)),
            None => present(json_view(*value), key@) is None,
        },
{
    match get_member(value, key) {
        Some(inner) => if is_null(inner) {
            None
        } else {
            Some(inner)
        },
        None => None,
    }
}

/// Reads a string.
pub fn read_text(value: &serde_json::Value) -> (text: Option<String>)
    ensures
        text.deep_view() == text_of(json_view(*value)),
{
    match as_text(value) {
        Some(text) => Some(text.to_owned()),
        None => None,
    }
}

/// Reads an array of strings.
pub fn read_texts(value: &serde_json::Value) -> (texts: Option<Vec<String>>)
    ensures
        texts.deep_view() == texts_of(json_view(*value)),
{
    let items = match as_items(value) {
        Some(items) => items,
        None => {
            return None;
        },
    };
    let ghost documents = json_views(items@);
    let mut texts: Vec<String> = Vec::new();
    let mut i: usize = 0;
    while i < items.len()
        invariant
            i <= items.len(),
            documents == json_views(items@),
            json_view(*value) == Json::Array(documents),
            texts@.len() == i,
            forall|j: int| 0 <= j < i ==> text_of(#[trigger] documents[j]) == Some(texts@[j]@),
        decreases items.len() - i,
    {
        assert(documents[i as int] == json_view(items@[i as int]));
        match read_text(&items[i]) {
            Some(text) => {
                texts.push(text);
            },
            None => {
                assert(text_of(documents[i as int]) is None);
                return None;
            },
        }
        i += 1;
    }
    assert(texts.deep_view() == Seq::new(documents.len(), |i: int| text_of(documents[i])->0));
    Some(texts)
}

/// Reads a number that fits in 32 bits without a sign.
pub fn read_unsigned(value: &serde_json::Value) -> (number: Option<u32>)
    ensures
        number == unsigned_of(json_view(*value)),
{
    match as_unsigned(value) {
        Some(number) => if number <= 0xffff_ffff {
            Some(number as u32)
        } else {
            None
        },
        None => None,
    }
}

/// Reads the string that an object must hold under `key`.
pub fn read_required_text(value: &serde_json::Value, key: &str) -> (text: Option<String>)
    ensures
        text.deep_view() == required_text(json_view(*value), key@),
{
    match get_member(value, key) {
        Some(found) => read_text(found),
        None => None,
    }
}

/// Reads the string that an object may hold under `key`.
pub fn read_optional_text(value: &serde_json::Value, key: &str) -> (text: Option<Option<String>>)
    ensures
        text.deep_view() == optional_text(json_view(*value), key@),
{
    match get_present(value, key) {
        Some(found) => match read_text(found) {
            Some(text) => Some(Some(text)),
            None => None,
        },
        None => Some(None),
    }
}

/// Reads the array of strings that an object must hold under `key`.
pub fn read_required_texts(value: &serde_json::Value, key: &str) -> (texts: Option<Vec<String>>)
    ensures
        texts.deep_view() == required_texts(json_view(*value), key@),
{
    match get_member(value, key) {
        Some(found) => read_texts(found),
        None => None,
    }
}

/// Reads the array of strings that an object may hold under `key`.
pub fn read_optional_texts(value: &serde_json::Value, key: &str) -> (texts: Option<
    Option<Vec<String>>,
>)
    ensures
        texts.deep_view() == optional_texts(json_view(*value), key@),
{
    match get_present(value, key) {
        Some(found) => match read_texts(found) {
            Some(texts) => Some(Some(texts)),
            None => None,
        },
        None => Some(None),
    }
}

/// Reads the number that an object may hold under `key`.
pub fn read_optional_unsigned(value: &serde_json::Value, key: &str) -> (number: Option<
    Option<u32>,
>)
    ensures
        number == optional_unsigned(json_view(*value), key@),
{
    match get_present(value, key) {
        Some(found) => match read_unsigned(found) {
            Some(number) => Some(Some(number)),
            None => None,
        },
        None => Some(None),
    }
}

} // verus!
