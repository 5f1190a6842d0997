//! The calls into `rmp_serde` that this library makes. MessagePack is read
//! into the same documents as JSON, and written from them.

use crate::json::{document, JsonValue};
use serde_json::Value;
use vstd::prelude::*;

verus! {

/// The value that `rmp_serde::from_slice` reads from `data`, or the text of the
/// error with which it refuses `data`.
pub uninterp spec fn msgpack_parsed(data: Seq<u8>) -> Result<JsonValue, Seq<char>>;

/// The MessagePack form that `rmp_serde::to_vec_named` writes for a document
/// that holds `doc`, or the text of the error with which it fails.
pub uninterp spec fn msgpack_value_bytes(doc: JsonValue) -> Result<Seq<u8>, Seq<char>>;

/// `rmp_serde::from_slice` at `serde_json::Value`. What it reads depends on
/// the bytes alone; its error comes back as the text that the error displays.
#[verifier::external_body]
pub(crate) fn parse(data: &[u8]) -> (r: Result<Value, String>)
    ensures
        match r {
            Ok(doc) => msgpack_parsed(data@) == Ok::<JsonValue, Seq<char>>(document(doc)),
            Err(e) => msgpack_parsed(data@) == Err::<JsonValue, Seq<char>>(e@),
        },
{
    match rmp_serde::from_slice::<Value>(data) {
        Ok(doc) => Ok(doc),
        Err(e) => Err(e.to_string()),
    }
}

/// `rmp_serde::to_vec_named` at `serde_json::Value`. What it writes depends
/// on the value that the document holds alone; its error comes back as the
/// text that the error displays.
#[verifier::external_body]
pub(crate) fn value_bytes(doc: &Value) -> (r: Result<Vec<u8>, String>)
    ensures
        match r {
            Ok(bytes) => msgpack_value_bytes(document(*doc)) == Ok::<Seq<u8>, Seq<char>>(bytes@),
            Err(e) => msgpack_value_bytes(document(*doc)) == Err::<Seq<u8>, Seq<char>>(e@),
        },
{
    match rmp_serde::to_vec_named::<Value>(doc) {
        Ok(bytes) => Ok(bytes),
        Err(e) => Err(e.to_string()),
    }
}

} // verus!
