//! JSON documents: the value that a `serde_json::Value` holds, as a
//! mathematical value, and the calls into `serde_json` that this library makes.
//!
//! Verus sees nothing inside a `serde_json::Value`. [`document`] names the
//! value that one holds, and the contract of each wrapper says, over that
//! value, what its call into `serde_json` returns.

use serde_json::Value;
use vstd::prelude::*;

verus! {

/// `serde_json::Value`: a JSON document.
#[verifier::external_type_specification]
#[verifier::external_body]
pub struct ExValue(serde_json::Value);

/// A JSON number: one that is written without fraction or exponent and fits
/// in 64 bits, signed or unsigned, is an integer; any other is held by the bits
/// of its binary64 form.
pub enum JsonNumber {
    Integer(int),
    Real(u64),
}

/// A JSON value. The members of an object have no order, and no key twice.
pub enum JsonValue {
    Null,
    Bool(bool),
    Number(JsonNumber),
    Text(Seq<char>),
    Array(Seq<JsonValue>),
    Object(Map<Seq<char>, JsonValue>),
}

impl JsonValue {
    /// The member under `key`: `None` where this is no object, or an object
    /// without that key.
    pub open spec fn member(self, key: Seq<char>) -> Option<JsonValue> {
        match self {
            JsonValue::Object(members) => if members.contains_key(key) {
                Some(members[key])
            } else {
                None
            },
            _ => None,
        }
    }

    /// The text: `None` where this is no string.
    pub open spec fn text(self) -> Option<Seq<char>> {
        match self {
            JsonValue::Text(s) => Some(s),
            _ => None,
        }
    }

    /// The number as a `u64`: `None` where this is no integer, or a negative
    /// one, or one above the largest `u64`.
    pub open spec fn unsigned(self) -> Option<u64> {
        match self {
            JsonValue::Number(JsonNumber::Integer(i)) => if 0 <= i <= u64::MAX {
                Some(i as u64)
            } else {
                None
            },
            _ => None,
        }
    }

    /// The number as an `i64`: `None` where this is no integer, or one that
    /// no `i64` holds.
    pub open spec fn signed(self) -> Option<i64> {
        match self {
            JsonValue::Number(JsonNumber::Integer(i)) => if i64::MIN <= i <= i64::MAX {
                Some(i as i64)
            } else {
                None
            },
            _ => None,
        }
    }
}

/// The JSON value that `value` holds.
pub uninterp spec fn document(value: Value) -> JsonValue;

/// The JSON value that `serde_json::from_slice` reads from `data`, or the text
/// of the error with which it refuses `data`.
pub uninterp spec fn json_parsed(data: Seq<u8>) -> Result<JsonValue, Seq<char>>;

/// The JSON text that `serde_json::to_vec` writes for a document that holds
/// `doc`, or the text of the error with which it fails.
pub uninterp spec fn json_value_bytes(doc: JsonValue) -> Result<Seq<u8>, Seq<char>>;

/// `serde_json::from_slice` at `Value`. What it reads depends on the bytes
/// alone; its error comes back as the text that the error displays.
#[verifier::external_body]
pub(crate) fn parse(data: &[u8]) -> (r: Result<Value, String>)
    ensures
        match r {
            Ok(doc) => json_parsed(data@) == Ok::<JsonValue, Seq<char>>(document(doc)),
            Err(e) => json_parsed(data@) == Err::<JsonValue, Seq<char>>(e@),
        },
{
    match serde_json::from_slice::<Value>(data) {
        Ok(doc) => Ok(doc),
        Err(e) => Err(e.to_string()),
    }
}

/// `Value::get` with a string key: the member of an object under that key,
/// and nothing for a missing key or for a document that is no object.
#[verifier::external_body]
pub(crate) fn member<'a>(doc: &'a Value, key: &str) -> (r: Option<&'a Value>)
    ensures
        match r {
            Some(m) => document(*doc).member(key@) == Some(document(*m)),
            None => document(*doc).member(key@) is None,
        },
{
    doc.get(key)
}

/// `Value::as_str`: the text of a string, and nothing for any other document.
#[verifier::external_body]
pub(crate) fn text<'a>(doc: &'a Value) -> (r: Option<&'a str>)
    ensures
        match r {
            Some(s) => document(*doc).text() == Some(s@),
            None => document(*doc).text() is None,
        },
{
    doc.as_str()
}

/// `Value::as_u64`: the number, where it is an integer that a `u64` holds.
#[verifier::external_body]
pub(crate) fn unsigned(doc: &Value) -> (r: Option<u64>)
    ensures
        r == document(*doc).unsigned(),
{
    doc.as_u64()
}

/// `Value::as_i64`: the number, where it is an integer that an `i64` holds.
#[verifier::external_body]
pub(crate) fn signed(doc: &Value) -> (r: Option<i64>)
    ensures
        r == document(*doc).signed(),
{
    doc.as_i64()
}

/// `Value::is_null`.
#[verifier::external_body]
pub(crate) fn is_null(doc: &Value) -> (r: bool)
    ensures
        r == (document(*doc) is Null),
{
    doc.is_null()
}

/// `Clone` of `Value`: the copy holds the same value.
pub assume_specification[ <Value as Clone>::clone ](doc: &Value) -> (copy: Value)
    ensures
        document(copy) == document(*doc),
;

/// `Value::from` at `&str`: the document that is that string.
#[verifier::external_body]
pub(crate) fn text_value(s: &str) -> (doc: Value)
    ensures
        document(doc) == JsonValue::Text(s@),
{
    Value::from(s)
}

/// `Value::from` at `u64`: the document that is that integer.
#[verifier::external_body]
pub(crate) fn unsigned_value(n: u64) -> (doc: Value)
    ensures
        document(doc) == JsonValue::Number(JsonNumber::Integer(n as int)),
{
    Value::from(n)
}

/// `serde_json::to_vec` at `Value`. What it writes depends on the value that
/// the document holds alone; its error comes back as the text that the error
/// displays.
#[verifier::external_body]
pub(crate) fn value_bytes(doc: &Value) -> (r: Result<Vec<u8>, String>)
    ensures
        match r {
            Ok(bytes) => json_value_bytes(document(*doc)) == Ok::<Seq<u8>, Seq<char>>(bytes@),
            Err(e) => json_value_bytes(document(*doc)) == Err::<Seq<u8>, Seq<char>>(e@),
        },
{
    match serde_json::to_vec::<Value>(doc) {
        Ok(bytes) => Ok(bytes),
        Err(e) => Err(e.to_string()),
    }
}

} // verus!
