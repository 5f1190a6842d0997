//! The encodings of the envelopes: what an encoder is, the textual one and
//! the compact binary one.

use crate::decimal::{decimal, unsigned_to_string};
use crate::document::{held, read_response, response_of};
use crate::envelope::{
    Request, RequestView, Response, ResponseView, FIELD_ID, FIELD_METHOD, FIELD_PARAMS, FIELD_VERSION,
};
use crate::error::{Error, ErrorView};
use crate::json::{document, json_parsed, json_value_bytes, text_value, unsigned_value, JsonNumber, JsonValue};
use crate::msgpack::{msgpack_parsed, msgpack_value_bytes};
use serde_json::Value;
use vstd::prelude::*;
use vstd::string::StringSliceAdditionalSpecFns;

verus! {

/// Content type of the textual encoding.
pub const MIME_JSON: &'static str = "application/json";

/// Content type of the compact binary encoding.
pub const MIME_MSGPACK: &'static str = "application/msgpack";

/// First byte of a MessagePack map of four pairs.
pub const MSGPACK_MAP_OF_FOUR: u8 = 0x84;

/// Whether `r` is the success or the failure that `expected` describes: the
/// same bytes, or an error of the kind `Other` with the same description.
pub open spec fn is_encoding(r: Result<Vec<u8>, Error>, expected: Result<Seq<u8>, Seq<char>>) -> bool {
    match r {
        Ok(bytes) => expected == Ok::<Seq<u8>, Seq<char>>(bytes@),
        Err(e) => expected is Err && e@ == ErrorView::Other(expected->Err_0),
    }
}

/// Whether `r` is the success or the failure that `expected` describes: the
/// same envelope, or an error of the kind `Other` with the same description.
pub open spec fn is_decoding(
    r: Result<Response<Value>, Error>,
    expected: Result<ResponseView<JsonValue>, Seq<char>>,
) -> bool {
    match r {
        Ok(response) => expected == Ok::<ResponseView<JsonValue>, Seq<char>>(held(response@)),
        Err(e) => expected is Err && e@ == ErrorView::Other(expected->Err_0),
    }
}

/// A wire encoding of the envelopes. An encoder holds no state: what it gives
/// for an envelope or for bytes depends on them alone, which the three spec
/// functions say. Where it fails, the call fails with an error of the kind
/// `Other` that carries the description.
pub trait Encoder: Default {
    /// The content type that requests in this encoding are sent with.
    spec fn mime_type(&self) -> Seq<char>;

    /// The bytes that stand for `request`, or the description of what keeps
    /// it from being written in this encoding.
    spec fn encoding(&self, request: RequestView) -> Result<Seq<u8>, Seq<char>>;

    /// The response envelope that `data` stands for, or the description of
    /// what keeps `data` from being one.
    spec fn decoding(&self, data: Seq<u8>) -> Result<ResponseView<JsonValue>, Seq<char>>;

    fn encode(&self, request: &Request) -> (r: Result<Vec<u8>, Error>)
        ensures
            is_encoding(r, self.encoding(request@)),
    ;

    fn decode(&self, data: &[u8]) -> (r: Result<Response<Value>, Error>)
        ensures
            is_decoding(r, self.decoding(data@)),
    ;

    fn mime(&self) -> (m: &'static str)
        ensures
            m@ == self.mime_type(),
    ;
}

/// Two runs of bytes put together; where one could not be written, the
/// description of the first that could not.
pub open spec fn joined(a: Result<Seq<u8>, Seq<char>>, b: Result<Seq<u8>, Seq<char>>) -> Result<
    Seq<u8>,
    Seq<char>,
> {
    match a {
        Ok(x) => match b {
            Ok(y) => Ok(x + y),
            Err(e) => Err(e),
        },
        Err(e) => Err(e),
    }
}

/// Bytes that are there.
pub open spec fn just(bytes: Seq<u8>) -> Result<Seq<u8>, Seq<char>> {
    Ok(bytes)
}

/// What an encoding call gave, as a mathematical value: the bytes, or the text
/// of the error.
pub open spec fn encoded(r: Result<Vec<u8>, String>) -> Result<Seq<u8>, Seq<char>> {
    match r {
        Ok(bytes) => Ok(bytes@),
        Err(e) => Err(e@),
    }
}

/// Whether `r` tells rightly that `part` was appended to `before`, giving
/// `after`, or that it could not be written.
pub open spec fn is_written(
    r: Result<(), Error>,
    before: Seq<u8>,
    part: Result<Seq<u8>, Seq<char>>,
    after: Seq<u8>,
) -> bool {
    match r {
        Ok(()) => part is Ok && after == before + part->Ok_0,
        Err(e) => part is Err && e@ == ErrorView::Other(part->Err_0),
    }
}

/// The response envelope that a decoded document is, where there is a
/// document.
pub open spec fn response_in(doc: Result<JsonValue, Seq<char>>) -> Result<
    ResponseView<JsonValue>,
    Seq<char>,
> {
    match doc {
        Ok(d) => response_of(d),
        Err(e) => Err(e),
    }
}

/// Appends `bytes` to `out`.
fn write_bytes(out: &mut Vec<u8>, bytes: &[u8])
    ensures
        final(out)@ == old(out)@ + bytes@,
{
    let mut i: usize = 0;
    while i < bytes.len()
        invariant
            i <= bytes.len(),
            out@ == old(out)@ + bytes@.subrange(0, i as int),
        decreases bytes.len() - i,
    {
        out.push(bytes[i]);
        i = i + 1;
        assert(out@ =~= old(out)@ + bytes@.subrange(0, i as int));
    }
    assert(bytes@.subrange(0, i as int) =~= bytes@);
}

/// Appends `part` to `out`, or gives the error that `part` is.
fn write_part(out: &mut Vec<u8>, part: Result<Vec<u8>, String>) -> (r: Result<(), Error>)
    ensures
        is_written(r, old(out)@, encoded(part), final(out)@),
{
    match part {
        Ok(bytes) => {
            write_bytes(out, bytes.as_slice());
            Ok(())
        },
        Err(description) => Err(Error::Other(description)),
    }
}

/// The textual encoding: JSON.
#[derive(Debug, Clone, Copy)]
pub struct Json {}

impl Default for Json {
    fn default() -> (r: Json)
        ensures
            r == (Json {}),
    {
        Json {}
    }
}

/// Whether JSON writes every character of `key` as it is: none is a quote, a
/// backslash or a control character.
pub open spec fn is_plain(key: Seq<char>) -> bool {
    forall|i: int| 0 <= i < key.len() ==> key[i] != '"' && key[i] != '\\' && ' ' <= #[trigger] key[i]
}

/// A key of a JSON object and the colon after it, for a key that JSON writes
/// as it is.
#[verifier::opaque]
pub open spec fn json_key(key: Seq<char>) -> Seq<u8>
    recommends
        is_plain(key),
{
    "\"".spec_bytes() + vstd::utf8::encode_utf8(key) + "\":".spec_bytes()
}

/// One member of a JSON object: key, colon, value.
pub open spec fn json_pair(key: Seq<char>, value: Result<Seq<u8>, Seq<char>>) -> Result<Seq<u8>, Seq<char>> {
    joined(just(json_key(key)), value)
}

/// The decimal notation of `n` as bytes.
#[verifier::opaque]
pub open spec fn unsigned_text(n: usize) -> Seq<u8> {
    vstd::utf8::encode_utf8(decimal(n as nat))
}

/// The JSON text of a request envelope,
/// `{"jsonrpc":"2.0","id":7,"method":"m","params":null}` for one: an object
/// of four members in the order version, id, method, parameters, with nothing
/// between the tokens. The id stands in decimal; the version, the method and
/// the parameters stand as `serde_json` writes them.
pub open spec fn json_request(request: RequestView) -> Result<Seq<u8>, Seq<char>> {
    let version = json_pair(FIELD_VERSION@, json_value_bytes(JsonValue::Text(request.jsonrpc)));
    let id = json_pair(FIELD_ID@, just(unsigned_text(request.id)));
    let method = json_pair(FIELD_METHOD@, json_value_bytes(JsonValue::Text(request.method)));
    let params = json_pair(FIELD_PARAMS@, json_value_bytes(request.params));
    let comma = just(",".spec_bytes());
    let close = just("}".spec_bytes());
    joined(
        just("{".spec_bytes()),
        joined(version, joined(comma, joined(id, joined(comma, joined(method, joined(comma, joined(params, close))))))),
    )
}

fn write_json_pair(out: &mut Vec<u8>, key: &str, value: Result<Vec<u8>, String>) -> (r: Result<(), Error>)
    requires
        is_plain(key@),
    ensures
        is_written(r, old(out)@, json_pair(key@, encoded(value)), final(out)@),
{
    let ghost before = out@;
    match value {
        Ok(bytes) => {
            reveal(json_key);
            write_bytes(out, "\"".as_bytes());
            write_bytes(out, key.as_bytes());
            write_bytes(out, "\":".as_bytes());
            write_bytes(out, bytes.as_slice());
            assert(out@ =~= before + (json_key(key@) + bytes@));
            Ok(())
        },
        Err(description) => Err(Error::Other(description)),
    }
}

impl Encoder for Json {
    open spec fn mime_type(&self) -> Seq<char> {
        MIME_JSON@
    }

    open spec fn encoding(&self, request: RequestView) -> Result<Seq<u8>, Seq<char>> {
        json_request(request)
    }

    open spec fn decoding(&self, data: Seq<u8>) -> Result<ResponseView<JsonValue>, Seq<char>> {
        response_in(json_parsed(data))
    }

    fn encode(&self, request: &Request) -> (r: Result<Vec<u8>, Error>) {
        let ghost version = json_pair(FIELD_VERSION@, json_value_bytes(JsonValue::Text(request@.jsonrpc)));
        let ghost id = json_pair(FIELD_ID@, just(unsigned_text(request@.id)));
        let ghost method = json_pair(FIELD_METHOD@, json_value_bytes(JsonValue::Text(request@.method)));
        let ghost params = json_pair(FIELD_PARAMS@, json_value_bytes(request@.params));
        let ghost comma = ",".spec_bytes();
        proof {
            reveal_strlit("jsonrpc");
            reveal_strlit("id");
            reveal_strlit("method");
            reveal_strlit("params");
        }
        let digits = unsigned_to_string(request.id as u64).as_str().as_bytes_vec();
        assert(digits@ == unsigned_text(request@.id)) by {
            reveal(unsigned_text);
        }
        let mut out: Vec<u8> = Vec::new();
        write_bytes(&mut out, "{".as_bytes());
        write_json_pair(&mut out, FIELD_VERSION, crate::json::value_bytes(&text_value(request.jsonrpc)))?;
        write_bytes(&mut out, ",".as_bytes());
        write_json_pair(&mut out, FIELD_ID, Ok(digits))?;
        write_bytes(&mut out, ",".as_bytes());
        write_json_pair(&mut out, FIELD_METHOD, crate::json::value_bytes(&text_value(request.method)))?;
        write_bytes(&mut out, ",".as_bytes());
        write_json_pair(&mut out, FIELD_PARAMS, crate::json::value_bytes(request.params))?;
        write_bytes(&mut out, "}".as_bytes());
        assert(out@ =~= "{".spec_bytes() + (version->Ok_0 + (comma + (id->Ok_0 + (comma + (method->Ok_0
            + (comma + (params->Ok_0 + "}".spec_bytes()))))))));
        Ok(out)
    }

    fn decode(&self, data: &[u8]) -> (r: Result<Response<Value>, Error>) {
        match crate::json::parse(data) {
            Ok(doc) => read_response(&doc),
            Err(description) => Err(Error::Other(description)),
        }
    }

    fn mime(&self) -> (m: &'static str) {
        MIME_JSON
    }
}

/// The compact binary encoding: MessagePack, with the members under their
/// names.
#[derive(Debug, Clone, Copy)]
pub struct MsgPack {}

impl Default for MsgPack {
    fn default() -> (r: MsgPack)
        ensures
            r == (MsgPack {}),
    {
        MsgPack {}
    }
}

/// The id of a call as a document.
pub open spec fn id_value(id: usize) -> JsonValue {
    JsonValue::Number(JsonNumber::Integer(id as int))
}

/// One pair of a MessagePack map: the key as a string, then the value.
pub open spec fn msgpack_pair(key: Seq<char>, value: JsonValue) -> Result<Seq<u8>, Seq<char>> {
    joined(msgpack_value_bytes(JsonValue::Text(key)), msgpack_value_bytes(value))
}

/// The MessagePack form of a request envelope: the first byte of a map of four
/// pairs, then the pairs in the order version, id, method, parameters. Keys
/// and values stand as `rmp_serde` writes them.
pub open spec fn msgpack_request(request: RequestView) -> Result<Seq<u8>, Seq<char>> {
    let version = msgpack_pair(FIELD_VERSION@, JsonValue::Text(request.jsonrpc));
    let id = msgpack_pair(FIELD_ID@, id_value(request.id));
    let method = msgpack_pair(FIELD_METHOD@, JsonValue::Text(request.method));
    let params = msgpack_pair(FIELD_PARAMS@, request.params);
    joined(just(seq![MSGPACK_MAP_OF_FOUR]), joined(version, joined(id, joined(method, params))))
}

fn write_msgpack_pair(out: &mut Vec<u8>, key: &str, value: &Value) -> (r: Result<(), Error>)
    ensures
        is_written(r, old(out)@, msgpack_pair(key@, document(*value)), final(out)@),
{
    let ghost before = out@;
    let name = text_value(key);
    write_part(out, crate::msgpack::value_bytes(&name))?;
    write_part(out, crate::msgpack::value_bytes(value))?;
    assert(out@ =~= before + (msgpack_value_bytes(JsonValue::Text(key@))->Ok_0 + msgpack_value_bytes(
        document(*value),
    )->Ok_0));
    Ok(())
}

impl Encoder for MsgPack {
    open spec fn mime_type(&self) -> Seq<char> {
        MIME_MSGPACK@
    }

    open spec fn encoding(&self, request: RequestView) -> Result<Seq<u8>, Seq<char>> {
        msgpack_request(request)
    }

    open spec fn decoding(&self, data: Seq<u8>) -> Result<ResponseView<JsonValue>, Seq<char>> {
        response_in(msgpack_parsed(data))
    }

    fn encode(&self, request: &Request) -> (r: Result<Vec<u8>, Error>) {
        let ghost version = msgpack_pair(FIELD_VERSION@, JsonValue::Text(request@.jsonrpc));
        let ghost id = msgpack_pair(FIELD_ID@, id_value(request@.id));
        let ghost method = msgpack_pair(FIELD_METHOD@, JsonValue::Text(request@.method));
        let ghost params = msgpack_pair(FIELD_PARAMS@, request@.params);
        let mut out: Vec<u8> = Vec::new();
        out.push(MSGPACK_MAP_OF_FOUR);
        assert(out@ =~= seq![MSGPACK_MAP_OF_FOUR]);
        write_msgpack_pair(&mut out, FIELD_VERSION, &text_value(request.jsonrpc))?;
        write_msgpack_pair(&mut out, FIELD_ID, &unsigned_value(request.id as u64))?;
        write_msgpack_pair(&mut out, FIELD_METHOD, &text_value(request.method))?;
        write_msgpack_pair(&mut out, FIELD_PARAMS, request.params)?;
        assert(out@ =~= seq![MSGPACK_MAP_OF_FOUR] + (version->Ok_0 + (id->Ok_0 + (method->Ok_0
            + params->Ok_0))));
        Ok(out)
    }

    fn decode(&self, data: &[u8]) -> (r: Result<Response<Value>, Error>) {
        match crate::msgpack::parse(data) {
            Ok(doc) => read_response(&doc),
            Err(description) => Err(Error::Other(description)),
        }
    }

    fn mime(&self) -> (m: &'static str) {
        MIME_MSGPACK
    }
}

} // verus!
