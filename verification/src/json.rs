//! JSON documents as `serde_json` holds them, and the few operations on them
//! that the rest of the crate uses. Everything in this file that is marked
//! `external_body` is believed, not proved. The contracts describe
//! `serde_json` with its default features, where the members of an object are
//! kept by key and printed in the order of their keys.

use vstd::prelude::*;

verus! {

/// `serde_json::Value`, carried as an opaque value. What it holds is spoken of
/// through [`json_model`].
#[verifier::external_type_specification]
#[verifier::external_body]
pub struct ExValue(serde_json::Value);

/// A JSON number as a document holds it.
pub enum JsonNumber {
    /// A number stored as an integer, between `i64::MIN` and `u64::MAX`.
    Integer(int),
    /// Any other number, identified by the text it is printed with.
    Real(Seq<char>),
}

/// The mathematical content of a JSON document.
pub enum JsonModel {
    Null,
    Bool(bool),
    Number(JsonNumber),
    Text(Seq<char>),
    Array(Seq<JsonModel>),
    Object(Map<Seq<char>, JsonModel>),
}

/// What a `serde_json::Value` holds.
pub uninterp spec fn json_model(v: serde_json::Value) -> JsonModel;

/// The contents of the elements of an array, in order.
pub open spec fn models_of(items: Seq<serde_json::Value>) -> Seq<JsonModel> {
    Seq::new(items.len(), |i: int| json_model(items[i]))
}

/// The member of an object under `key`, if `m` is an object that has one.
pub open spec fn member_of(m: JsonModel, key: Seq<char>) -> Option<JsonModel> {
    match m {
        JsonModel::Object(fields) => if fields.dom().contains(key) {
            Some(fields[key])
        } else {
            None
        },
        _ => None,
    }
}

/// `Value::get` with a string key: the member under that key when the value is
/// an object that has it, nothing for any other value or a missing key.
#[verifier::external_body]
pub(crate) fn member<'a>(v: &'a serde_json::Value, key: &str) -> (r: Option<&'a serde_json::Value>)
    ensures
        match r {
            Some(x) => member_of(json_model(*v), key@) == Some(json_model(*x)),
            None => member_of(json_model(*v), key@) is None,
        },
{
    v.get(key)
}

/// `Value::as_array`: the elements when the value is an array, nothing
/// otherwise.
#[verifier::external_body]
pub(crate) fn as_array(v: &serde_json::Value) -> (r: Option<&Vec<serde_json::Value>>)
    ensures
        match r {
            Some(items) => json_model(*v) == JsonModel::Array(models_of(items@)),
            None => !(json_model(*v) is Array),
        },
{
    v.as_array()
}

/// `Value::as_str`: the text when the value is a string, nothing otherwise.
#[verifier::external_body]
pub(crate) fn as_str(v: &serde_json::Value) -> (r: Option<&str>)
    ensures
        match r {
            Some(s) => json_model(*v) == JsonModel::Text(s@),
            None => !(json_model(*v) is Text),
        },
{
    v.as_str()
}

/// The integer that `m` holds, when it is a number stored as an integer that
/// fits in an `i64`.
pub open spec fn integer_of(m: JsonModel) -> Option<i64> {
    match m {
        JsonModel::Number(JsonNumber::Integer(k)) => if i64::MIN <= k <= i64::MAX {
            Some(k as i64)
        } else {
            None
        },
        _ => None,
    }
}

/// `Value::as_i64`: the number when the value is an integer within the range
/// of `i64`, nothing for any other value.
#[verifier::external_body]
pub(crate) fn as_i64(v: &serde_json::Value) -> (r: Option<i64>)
    ensures
        r == integer_of(json_model(*v)),
{
    v.as_i64()
}

/// The compact text that `serde_json` prints a document as.
pub uninterp spec fn json_text(m: JsonModel) -> Seq<char>;

/// `Value`'s `Display`, through `to_string`: the compact JSON text of the
/// value, which depends on nothing but what the value holds.
#[verifier::external_body]
pub(crate) fn to_text(v: &serde_json::Value) -> (r: String)
    ensures
        r@ == json_text(json_model(*v)),
{
    v.to_string()
}

/// What `serde_json` makes of a byte string: the document it holds, or the
/// text of the error that the parser reports.
pub uninterp spec fn json_parse(bytes: Seq<u8>) -> Result<JsonModel, Seq<char>>;

/// `serde_json::from_slice` at type `Value`, with the error turned into its
/// message. The outcome depends on the bytes alone.
#[verifier::external_body]
pub(crate) fn parse(bytes: &[u8]) -> (r: Result<serde_json::Value, String>)
    ensures
        match r {
            Ok(v) => json_parse(bytes@) == Ok::<JsonModel, Seq<char>>(json_model(v)),
            Err(e) => json_parse(bytes@) == Err::<JsonModel, Seq<char>>(e@),
        },
{
    match serde_json::from_slice::<serde_json::Value>(bytes) {
        Ok(v) => Ok(v),
        Err(e) => Err(e.to_string()),
    }
}

/// `Value::String`: the JSON string with the given text.
#[verifier::external_body]
pub(crate) fn text_value(s: String) -> (r: serde_json::Value)
    ensures
        json_model(r) == JsonModel::Text(s@),
{
    serde_json::Value::String(s)
}

/// No two entries share a key.
pub open spec fn distinct_keys(fields: Seq<(String, serde_json::Value)>) -> bool {
    forall|i: int, j: int| 0 <= i < j < fields.len() ==> fields[i].0@ != fields[j].0@
}

/// The members that a list of entries describes: each entry's value under its
/// key.
pub open spec fn fields_model(fields: Seq<(String, serde_json::Value)>) -> Map<Seq<char>, JsonModel>
    decreases fields.len(),
{
    if fields.len() == 0 {
        Map::empty()
    } else {
        fields_model(fields.drop_last()).insert(fields.last().0@, json_model(fields.last().1))
    }
}

/// `Value::Object` over a `serde_json::Map` collected from the entries: the
/// object with exactly these members. The entries must not repeat a key,
/// because the collection does not say which of two it would keep.
#[verifier::external_body]
pub(crate) fn object_value(fields: Vec<(String, serde_json::Value)>) -> (r: serde_json::Value)
    requires
        distinct_keys(fields@),
    ensures
        json_model(r) == JsonModel::Object(fields_model(fields@)),
{
    serde_json::Value::Object(fields.into_iter().collect())
}

} // verus!
