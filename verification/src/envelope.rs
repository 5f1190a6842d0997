//! The two wire shapes of a call, and the rules that a response has to meet.

use crate::error::{Error, ErrorView, RpcError, RpcErrorView, INVALID_ID, INVALID_VERSION, NO_RESULT_OR_ERROR};
use crate::json::{document, JsonValue};
use serde_json::Value;
use vstd::prelude::*;

verus! {

/// The protocol version that every request states and every response must echo.
pub const JSONRPC_VER: &'static str = "2.0";

/// Member of an envelope that holds the protocol version.
pub const FIELD_VERSION: &'static str = "jsonrpc";

/// Member of an envelope that holds the id of the call.
pub const FIELD_ID: &'static str = "id";

/// Member of a request envelope that holds the method's name.
pub const FIELD_METHOD: &'static str = "method";

/// Member of a request envelope that holds the parameters.
pub const FIELD_PARAMS: &'static str = "params";

/// Member of a response envelope that holds the result.
pub const FIELD_RESULT: &'static str = "result";

/// Member of a response envelope that holds the error object.
pub const FIELD_ERROR: &'static str = "error";

/// Member of an error object that holds the code.
pub const FIELD_CODE: &'static str = "code";

/// Member of an error object that holds the message.
pub const FIELD_MESSAGE: &'static str = "message";

/// A request envelope: made for one call and handed to the encoder.
pub struct Request<'a> {
    pub jsonrpc: &'static str,
    pub id: usize,
    pub method: &'a str,
    pub params: &'a Value,
}

/// A [`Request`] as a mathematical value.
pub struct RequestView {
    pub jsonrpc: Seq<char>,
    pub id: usize,
    pub method: Seq<char>,
    pub params: JsonValue,
}

impl<'a> View for Request<'a> {
    type V = RequestView;

    open spec fn view(&self) -> RequestView {
        RequestView {
            jsonrpc: self.jsonrpc@,
            id: self.id,
            method: self.method@,
            params: document(*self.params),
        }
    }
}

impl RequestView {
    /// The envelope of the call of `method` with `params` under `id`.
    pub open spec fn of_call(id: usize, method: Seq<char>, params: JsonValue) -> RequestView {
        RequestView { jsonrpc: JSONRPC_VER@, id, method, params }
    }
}

impl<'a> Request<'a> {
    /// The envelope of the call of `method` with `params` under `id`.
    pub fn new(id: usize, method: &'a str, params: &'a Value) -> (request: Request<'a>)
        ensures
            request@ == RequestView::of_call(id, method@, document(*params)),
    {
        Request { jsonrpc: JSONRPC_VER, id, method, params }
    }
}

/// A response envelope as it was decoded, before any rule was checked. `R` is
/// what a result is held as.
#[derive(Debug, Clone, PartialEq, Eq)]
pub struct Response<R> {
    pub jsonrpc: String,
    pub id: usize,
    pub result: Option<R>,
    pub error: Option<RpcError>,
}

/// A [`Response`] as a mathematical value.
pub struct ResponseView<R> {
    pub jsonrpc: Seq<char>,
    pub id: usize,
    pub result: Option<R>,
    pub error: Option<RpcErrorView>,
}

impl<R> View for Response<R> {
    type V = ResponseView<R>;

    open spec fn view(&self) -> ResponseView<R> {
        ResponseView {
            jsonrpc: self.jsonrpc@,
            id: self.id,
            result: self.result,
            error: match self.error {
                Some(e) => Some(e@),
                None => None,
            },
        }
    }
}

impl<R> ResponseView<R> {
    /// What a call that was sent under `id` comes to with this response. The
    /// checks stand in their order: a response that fails several of them is
    /// reported by the first.
    pub open spec fn outcome(self, id: usize) -> Result<R, ErrorView> {
        if self.jsonrpc != JSONRPC_VER@ {
            Err(ErrorView::Protocol(INVALID_VERSION@))
        } else if self.id != id {
            Err(ErrorView::Protocol(INVALID_ID@))
        } else if let Some(e) = self.error {
            Err(ErrorView::Rpc(e))
        } else if let Some(r) = self.result {
            Ok(r)
        } else {
            Err(ErrorView::Protocol(NO_RESULT_OR_ERROR@))
        }
    }

    /// Whether the response passes the checks of version and id for a call
    /// that was sent under `id`.
    pub open spec fn answers(self, id: usize) -> bool {
        self.jsonrpc == JSONRPC_VER@ && self.id == id
    }
}

/// The outcome of a call with its error taken as a mathematical value.
pub open spec fn outcome_view<R>(r: Result<R, Error>) -> Result<R, ErrorView> {
    match r {
        Ok(v) => Ok(v),
        Err(e) => Err(e@),
    }
}

impl<R> Response<R> {
    /// Checks the envelope for a call that was sent under `id`, and gives its
    /// result or the first rule that it breaks.
    pub fn into_result(self, id: usize) -> (r: Result<R, Error>)
        ensures
            outcome_view(r) == self@.outcome(id),
    {
        let version = JSONRPC_VER.to_owned();
        if self.jsonrpc != version {
            return Err(Error::Protocol(INVALID_VERSION));
        }
        if self.id != id {
            return Err(Error::Protocol(INVALID_ID));
        }
        if let Some(e) = self.error {
            Err(Error::Rpc(e))
        } else if let Some(r) = self.result {
            Ok(r)
        } else {
            Err(Error::Protocol(NO_RESULT_OR_ERROR))
        }
    }
}

/// A response that echoes another id than the call was sent under comes to the
/// protocol error of the invalid id, whatever result or error it holds. (A
/// response of another protocol version is reported as that first.)
pub proof fn lemma_other_id_is_refused<R>(response: ResponseView<R>, id: usize)
    requires
        response.jsonrpc == JSONRPC_VER@,
        response.id != id,
    ensures
        response.outcome(id) == Err::<R, ErrorView>(ErrorView::Protocol(INVALID_ID@)),
{
}

/// A response that passes the checks of version and id and holds both a result
/// and an error comes to the server's error, never to the result.
pub proof fn lemma_error_before_result<R>(response: ResponseView<R>, id: usize)
    requires
        response.answers(id),
        response.error is Some,
        response.result is Some,
    ensures
        response.outcome(id) == Err::<R, ErrorView>(ErrorView::Rpc(response.error.unwrap())),
{
}

/// A response that passes the checks of version and id and holds neither a
/// result nor an error comes to the protocol error of the missing fields.
pub proof fn lemma_neither_is_refused<R>(response: ResponseView<R>, id: usize)
    requires
        response.answers(id),
        response.error is None,
        response.result is None,
    ensures
        response.outcome(id) == Err::<R, ErrorView>(ErrorView::Protocol(NO_RESULT_OR_ERROR@)),
{
}

} // verus!
