//! Reading a response envelope off a decoded document. Both encodings decode
//! to the same documents, so both read their envelopes here.

use crate::envelope::{
    Response, ResponseView, FIELD_CODE, FIELD_ERROR, FIELD_ID, FIELD_MESSAGE, FIELD_RESULT, FIELD_VERSION,
};
use crate::error::{Error, ErrorView, RpcError, RpcErrorView};
use crate::json::{document, is_null, member, signed, text, unsigned, JsonValue};
use serde_json::Value;
use vstd::prelude::*;

verus! {

/// Description of a document without a version that is a string.
pub const BAD_VERSION: &'static str = "missing or invalid field `jsonrpc`";

/// Description of a document without an id that is an unsigned integer.
pub const BAD_ID: &'static str = "missing or invalid field `id`";

/// Description of a document whose error is no error object.
pub const BAD_ERROR: &'static str = "invalid field `error`";

/// A member that is there and not null. An envelope that holds null under a
/// key is read as one without that key.
pub open spec fn present(member: Option<JsonValue>) -> Option<JsonValue> {
    match member {
        Some(JsonValue::Null) => None,
        Some(v) => Some(v),
        None => None,
    }
}

/// The version that `doc` states: its member `jsonrpc`, which must be a string.
pub open spec fn version_of(doc: JsonValue) -> Option<Seq<char>> {
    match doc.member(FIELD_VERSION@) {
        Some(v) => v.text(),
        None => None,
    }
}

/// The id that `doc` echoes: its member `id`, which must be an unsigned integer
/// that fits in a `usize`.
pub open spec fn id_of(doc: JsonValue) -> Option<usize> {
    match doc.member(FIELD_ID@) {
        Some(v) => match v.unsigned() {
            Some(n) => if n <= usize::MAX {
                Some(n as usize)
            } else {
                None
            },
            None => None,
        },
        None => None,
    }
}

/// The error object that `doc` is: its member `code` must be an integer that
/// fits in an `i16`; its member `message` may be missing or null, and must be a
/// string otherwise.
pub open spec fn rpc_error_of(doc: JsonValue) -> Option<RpcErrorView> {
    match doc.member(FIELD_CODE@) {
        Some(c) => match c.signed() {
            Some(n) => if i16::MIN <= n <= i16::MAX {
                match present(doc.member(FIELD_MESSAGE@)) {
                    Some(m) => match m.text() {
                        Some(t) => Some(RpcErrorView { code: n as i16, message: Some(t) }),
                        None => None,
                    },
                    None => Some(RpcErrorView { code: n as i16, message: None }),
                }
            } else {
                None
            },
            None => None,
        },
        None => None,
    }
}

/// The response envelope that `doc` is, or the description of what keeps it
/// from being one. The result is the value under `result`, whatever it is.
/// Members that an envelope does not have are passed over.
pub open spec fn response_of(doc: JsonValue) -> Result<ResponseView<JsonValue>, Seq<char>> {
    match version_of(doc) {
        None => Err(BAD_VERSION@),
        Some(jsonrpc) => match id_of(doc) {
            None => Err(BAD_ID@),
            Some(id) => {
                let result = present(doc.member(FIELD_RESULT@));
                match present(doc.member(FIELD_ERROR@)) {
                    None => Ok(ResponseView { jsonrpc, id, result, error: None }),
                    Some(e) => match rpc_error_of(e) {
                        Some(error) => Ok(ResponseView { jsonrpc, id, result, error: Some(error) }),
                        None => Err(BAD_ERROR@),
                    },
                }
            },
        },
    }
}

/// A response whose result is a document, with the value that the document
/// holds in its place.
pub open spec fn held(response: ResponseView<Value>) -> ResponseView<JsonValue> {
    ResponseView {
        jsonrpc: response.jsonrpc,
        id: response.id,
        result: match response.result {
            Some(v) => Some(document(v)),
            None => None,
        },
        error: response.error,
    }
}

fn read_present<'a>(doc: &'a Value, key: &str) -> (r: Option<&'a Value>)
    ensures
        match r {
            Some(v) => present(document(*doc).member(key@)) == Some(document(*v)),
            None => present(document(*doc).member(key@)) is None,
        },
{
    match member(doc, key) {
        Some(v) => if is_null(v) {
            None
        } else {
            Some(v)
        },
        None => None,
    }
}

fn read_version(doc: &Value) -> (r: Option<String>)
    ensures
        match r {
            Some(s) => version_of(document(*doc)) == Some(s@),
            None => version_of(document(*doc)) is None,
        },
{
    match member(doc, FIELD_VERSION) {
        Some(v) => match text(v) {
            Some(s) => Some(s.to_owned()),
            None => None,
        },
        None => None,
    }
}

fn read_id(doc: &Value) -> (r: Option<usize>)
    ensures
        r == id_of(document(*doc)),
{
    match member(doc, FIELD_ID) {
        Some(v) => match unsigned(v) {
            Some(n) => if n <= usize::MAX as u64 {
                Some(n as usize)
            } else {
                None
            },
            None => None,
        },
        None => None,
    }
}

fn read_rpc_error(doc: &Value) -> (r: Option<RpcError>)
    ensures
        match r {
            Some(e) => rpc_error_of(document(*doc)) == Some(e@),
            None => rpc_error_of(document(*doc)) is None,
        },
{
    let code = match member(doc, FIELD_CODE) {
        Some(c) => match signed(c) {
            Some(n) => if -32768 <= n && n <= 32767 {
                n as i16
            } else {
                return None;
            },
            None => {
                return None;
            },
        },
        None => {
            return None;
        },
    };
    match read_present(doc, FIELD_MESSAGE) {
        Some(m) => match text(m) {
            Some(t) => Some(RpcError::new(code, Some(t.to_owned()))),
            None => None,
        },
        None => Some(RpcError::new(code, None)),
    }
}

/// Reads the response envelope that `doc` is. The result is held as a
/// document of its own: a copy of what stands under `result`.
pub fn read_response(doc: &Value) -> (r: Result<Response<Value>, Error>)
    ensures
        match r {
            Ok(response) => response_of(document(*doc)) == Ok::<ResponseView<JsonValue>, Seq<char>>(
                held(response@),
            ),
            Err(e) => response_of(document(*doc)) is Err && e@ == ErrorView::Other(
                response_of(document(*doc))->Err_0,
            ),
        },
{
    let jsonrpc = match read_version(doc) {
        Some(s) => s,
        None => {
            return Err(Error::Other(BAD_VERSION.to_owned()));
        },
    };
    let id = match read_id(doc) {
        Some(n) => n,
        None => {
            return Err(Error::Other(BAD_ID.to_owned()));
        },
    };
    let result = match read_present(doc, FIELD_RESULT) {
        Some(v) => Some(v.clone()),
        None => None,
    };
    let error = match read_present(doc, FIELD_ERROR) {
        Some(e) => match read_rpc_error(e) {
            Some(error) => Some(error),
            None => {
                return Err(Error::Other(BAD_ERROR.to_owned()));
            },
        },
        None => None,
    };
    Ok(Response { jsonrpc, id, result, error })
}

} // verus!
