//! The boundary to `serde_json`: JSON documents are carried as opaque
//! `serde_json::Value`s, and everything the rest of the crate learns about one
//! comes through the functions in this file.

use crate::text::single_line;
use serde_json::Value;
use vstd::prelude::*;

verus! {

/// `serde_json::Value`: a JSON document, carried as an opaque value.
#[verifier::external_type_specification]
#[verifier::external_body]
pub struct ExValue(serde_json::Value);

/// `serde_json::Error`: a JSON error, carried as an opaque value.
#[verifier::external_type_specification]
#[verifier::external_body]
pub struct ExJsonError(serde_json::Error);

/// `serde_json::Map`: the entries of a JSON object, carried as an opaque
/// value.
#[verifier::external_type_specification]
#[verifier::external_body]
#[verifier::reject_recursive_types(K)]
#[verifier::reject_recursive_types(V)]
pub struct ExJsonMap<K, V>(serde_json::Map<K, V>);

/// What `serde_json::from_str` makes of a text: the document it holds, or
/// `None` where the text is not one JSON document.
pub uninterp spec fn json_parse(text: Seq<char>) -> Option<Value>;

/// The compact JSON text that `serde_json::to_string` writes for a document,
/// or `None` where it reports an error.
pub uninterp spec fn json_text(v: Value) -> Option<Seq<char>>;

/// The JSON string literal that `serde_json::to_string` writes for a text,
/// quotes and escapes included, or `None` where it reports an error.
pub uninterp spec fn json_string_text(s: Seq<char>) -> Option<Seq<char>>;

/// What a `serde_json::Map` holds: its values by their keys.
pub uninterp spec fn json_entries(m: serde_json::Map<String, Value>) -> Map<Seq<char>, Value>;

/// What `Value::as_object` finds in a document: the entries of the object,
/// or `None` where the document is not an object.
pub uninterp spec fn json_object(v: Value) -> Option<Map<Seq<char>, Value>>;

/// What `Value::as_array` finds in a document: the elements of the array, or
/// `None` where the document is not an array.
pub uninterp spec fn json_array(v: Value) -> Option<Seq<Value>>;

/// The member of a document under a key, as `Value::get` finds it: the entry
/// of an object under that key; `None` where the document is not an object
/// or the object has no such key.
pub open spec fn json_member(v: Value, key: Seq<char>) -> Option<Value> {
    match json_object(v) {
        Some(entries) => if entries.contains_key(key) {
            Some(entries[key])
        } else {
            None
        },
        None => None,
    }
}

/// The map that a list of pairs builds up when they are inserted in their
/// order: a later pair replaces an earlier one with the same key.
pub open spec fn inserted_all(base: Map<Seq<char>, Value>, pairs: Seq<(String, Value)>) -> Map<
    Seq<char>,
    Value,
>
    decreases pairs.len(),
{
    if pairs.len() == 0 {
        base
    } else {
        inserted_all(base, pairs.drop_last()).insert(pairs.last().0@, pairs.last().1)
    }
}

/// What `Value::as_u64` reads from a document.
pub uninterp spec fn json_u64(v: Value) -> Option<u64>;

/// What `Value::as_i64` reads from a document.
pub uninterp spec fn json_i64(v: Value) -> Option<i64>;

/// What `Value::as_str` reads from a document.
pub uninterp spec fn json_str(v: Value) -> Option<Seq<char>>;

/// Whether `Value::is_null` holds of a document.
pub uninterp spec fn json_is_null(v: Value) -> bool;

/// The message that `serde_json::Error`'s `to_string` gives for an error.
pub uninterp spec fn json_error_message(e: serde_json::Error) -> String;

/// `<serde_json::Value as Clone>::clone`: the copy is the same document.
pub assume_specification[ <serde_json::Value as Clone>::clone ](v: &Value) -> (r: Value)
    ensures
        r == *v,
;

/// `serde_json::from_str::<Value>`: parses one JSON document. The result is
/// named by `json_parse`: the same text always parses the same way.
#[verifier::external_body]
pub(crate) fn parse_value(text: &str) -> (r: Result<Value, serde_json::Error>)
    ensures
        match r {
            Ok(v) => json_parse(text@) == Some(v),
            Err(_) => json_parse(text@) is None,
        },
{
    serde_json::from_str::<Value>(text)
}

/// `serde_json::to_string` on a `Value`: the compact text of the document,
/// named by `json_text`. The compact form has no line feed in it: the
/// formatter writes no white space between tokens, and a line feed inside a
/// string is written as the escape `\n`.
#[verifier::external_body]
pub(crate) fn value_text(v: &Value) -> (r: Result<String, serde_json::Error>)
    ensures
        match r {
            Ok(s) => json_text(*v) == Some(s@) && single_line(s@),
            Err(_) => json_text(*v) is None,
        },
{
    serde_json::to_string(v)
}

/// `serde_json::to_string` on a `str`: the text as a JSON string literal,
/// named by `json_string_text`. Control characters are written as escapes, so
/// the literal has no line feed in it.
#[verifier::external_body]
pub(crate) fn string_text(s: &str) -> (r: Result<String, serde_json::Error>)
    ensures
        match r {
            Ok(t) => json_string_text(s@) == Some(t@) && single_line(t@),
            Err(_) => json_string_text(s@) is None,
        },
{
    serde_json::to_string(s)
}

/// `serde_json::Error`'s `to_string`: the message of a JSON error, named by
/// `json_error_message`. Nothing is claimed of the text itself.
#[verifier::external_body]
pub(crate) fn json_error_text(e: &serde_json::Error) -> (s: String)
    ensures
        s == json_error_message(*e),
{
    e.to_string()
}

/// `Value::get` with a string key: for an object, the entry under that key;
/// `None` for an object without the key and for any other document.
#[verifier::external_body]
pub(crate) fn member<'a>(v: &'a Value, key: &str) -> (r: Option<&'a Value>)
    ensures
        match r {
            Some(m) => json_member(*v, key@) == Some(*m),
            None => json_member(*v, key@) is None,
        },
{
    v.get(key)
}

/// `serde_json::Map::new`: a map without entries.
#[verifier::external_body]
pub(crate) fn new_object() -> (r: serde_json::Map<String, Value>)
    ensures
        json_entries(r) == (Map::<Seq<char>, Value>::empty()),
{
    serde_json::Map::new()
}

/// `serde_json::Map::insert`: the value stands under the key afterwards, in
/// place of the value that stood there before, which is handed back.
#[verifier::external_body]
pub(crate) fn object_insert(m: &mut serde_json::Map<String, Value>, key: String, value: Value) -> (r:
    Option<Value>)
    ensures
        json_entries(*final(m)) == json_entries(*old(m)).insert(key@, value),
        match r {
            Some(before) => json_entries(*old(m)).contains_key(key@) && json_entries(*old(m))[key@]
                == before,
            None => !json_entries(*old(m)).contains_key(key@),
        },
{
    m.insert(key, value)
}

/// `serde_json::Map::is_empty`: whether the map has no entry.
#[verifier::external_body]
pub(crate) fn object_is_empty(m: &serde_json::Map<String, Value>) -> (r: bool)
    ensures
        r == (json_entries(*m).dom() == Set::<Seq<char>>::empty()),
{
    m.is_empty()
}

/// The variant `Value::Object`: the document that is an object with the
/// entries of the map. It is not `null`.
#[verifier::external_body]
pub(crate) fn into_object(m: serde_json::Map<String, Value>) -> (v: Value)
    ensures
        json_object(v) == Some(json_entries(m)),
        !json_is_null(v),
{
    Value::Object(m)
}

/// The variant `Value::Object`, read: the map of a document that is an
/// object, and the document itself where it is none.
#[verifier::external_body]
pub(crate) fn take_object(v: Value) -> (r: Result<serde_json::Map<String, Value>, Value>)
    ensures
        match r {
            Ok(m) => json_object(v) == Some(json_entries(m)),
            Err(other) => other == v && json_object(v) is None,
        },
{
    match v {
        Value::Object(m) => Ok(m),
        other => Err(other),
    }
}

/// `Value::as_object`: the map of a document that is an object.
#[verifier::external_body]
pub(crate) fn as_object<'a>(v: &'a Value) -> (r: Option<&'a serde_json::Map<String, Value>>)
    ensures
        match r {
            Some(m) => json_object(*v) == Some(json_entries(*m)),
            None => json_object(*v) is None,
        },
{
    v.as_object()
}

/// `Value::as_array`: the elements of a document that is an array.
#[verifier::external_body]
pub(crate) fn as_array<'a>(v: &'a Value) -> (r: Option<&'a Vec<Value>>)
    ensures
        match r {
            Some(a) => json_array(*v) == Some(a@),
            None => json_array(*v) is None,
        },
{
    v.as_array()
}

/// `serde_json::Map`'s `into_iter`: the entries of the map, each key once.
/// Inserted into a map in the order of the list, they give the map back.
#[verifier::external_body]
pub(crate) fn object_pairs(m: serde_json::Map<String, Value>) -> (r: Vec<(String, Value)>)
    ensures
        inserted_all(Map::<Seq<char>, Value>::empty(), r@) == json_entries(m),
{
    m.into_iter().collect()
}

/// The variant `Value::String`: the document that is a string with this
/// text. It is not `null`.
#[verifier::external_body]
pub(crate) fn string_value(s: &str) -> (v: Value)
    ensures
        json_str(v) == Some(s@),
        !json_is_null(v),
{
    Value::String(s.to_owned())
}

/// `Value::from` on a signed integer: the document that is this number. It
/// is not `null`.
#[verifier::external_body]
pub(crate) fn integer_value(n: i64) -> (v: Value)
    ensures
        json_i64(v) == Some(n),
        !json_is_null(v),
{
    Value::from(n)
}

/// `Value::as_u64`: the document as an unsigned integer, where it is one.
#[verifier::external_body]
pub(crate) fn as_u64(v: &Value) -> (r: Option<u64>)
    ensures
        r == json_u64(*v),
{
    v.as_u64()
}

/// `Value::as_i64`: the document as a signed integer, where it is one.
#[verifier::external_body]
pub(crate) fn as_i64(v: &Value) -> (r: Option<i64>)
    ensures
        r == json_i64(*v),
{
    v.as_i64()
}

/// `Value::as_str`: the document as a string, where it is one.
#[verifier::external_body]
pub(crate) fn as_str<'a>(v: &'a Value) -> (r: Option<&'a str>)
    ensures
        match r {
            Some(s) => json_str(*v) == Some(s@),
            None => json_str(*v) is None,
        },
{
    v.as_str()
}

/// `Value::is_null`: whether the document is the JSON `null`.
#[verifier::external_body]
pub(crate) fn is_null(v: &Value) -> (r: bool)
    ensures
        r == json_is_null(*v),
{
    v.is_null()
}

/// The variant `Value::Null`: the JSON `null`, of which `Value::is_null` holds.
#[verifier::external_body]
pub(crate) fn null() -> (r: Value)
    ensures
        json_is_null(r),
{
    Value::Null
}

} // verus!
