//! The client: the state of one endpoint's calls, what it asks of the
//! transport for a call, and what it makes of the answer.

use crate::encoder::{Encoder, Json};
use crate::envelope::{Request, RequestView, JSONRPC_VER};
use crate::error::{Error, ErrorView, INVALID_ID, NO_RESULT_OR_ERROR};
use crate::json::{document, JsonValue};
use serde_json::Value;
use std::time::Duration;
use vstd::prelude::*;

verus! {

/// Seconds that a request may take where the client was given no timeout.
pub const DEFAULT_TIMEOUT_SECS: u64 = 5;

/// The one status with which an endpoint answers with an envelope.
pub const HTTP_OK: u16 = 200;

/// The method that every request is sent with.
pub const HTTP_METHOD: &'static str = "POST";

/// The header that states the encoding of the request.
pub const CONTENT_TYPE: &'static str = "content-type";

/// The duration of `secs` whole seconds, as `Duration::from_secs` makes it.
pub uninterp spec fn seconds(secs: u64) -> Duration;

/// `Duration::from_secs`: the duration is that number of whole seconds.
#[verifier::external_body]
fn duration_from_secs(secs: u64) -> (d: Duration)
    ensures
        d == seconds(secs),
{
    Duration::from_secs(secs)
}

/// The id that a client issues after `id`: the next one, and zero after the
/// largest.
pub open spec fn following(id: usize) -> usize {
    if id == usize::MAX {
        0
    } else {
        (id + 1) as usize
    }
}

/// What the transport is asked to send for one call.
#[derive(Debug, PartialEq, Eq)]
pub struct HttpRequest {
    pub method: &'static str,
    pub url: String,
    pub timeout: Duration,
    pub content_type: &'static str,
    pub body: Vec<u8>,
}

/// An [`HttpRequest`] as a mathematical value.
pub struct HttpRequestView {
    pub method: Seq<char>,
    pub url: Seq<char>,
    pub timeout: Duration,
    pub content_type: Seq<char>,
    pub body: Seq<u8>,
}

impl View for HttpRequest {
    type V = HttpRequestView;

    open spec fn view(&self) -> HttpRequestView {
        HttpRequestView {
            method: self.method@,
            url: self.url@,
            timeout: self.timeout,
            content_type: self.content_type@,
            body: self.body@,
        }
    }
}

/// What the transport reports of one request.
#[derive(Debug, Clone, PartialEq, Eq)]
pub enum Reply {
    /// The request could not be built or sent, or no answer came in time;
    /// carries the transport's diagnostic.
    Unsent(String),
    /// An answer came and its body could not be read; carries the cause's
    /// description.
    Unread(String),
    /// The body of an answer with status 200.
    Envelope(Vec<u8>),
    /// The status of an answer and its body as text.
    Text(u16, String),
}

/// A [`Reply`] as a mathematical value.
pub enum ReplyView {
    Unsent(Seq<char>),
    Unread(Seq<char>),
    Envelope(Seq<u8>),
    Text(u16, Seq<char>),
}

impl View for Reply {
    type V = ReplyView;

    open spec fn view(&self) -> ReplyView {
        match self {
            Reply::Unsent(diagnostic) => ReplyView::Unsent(diagnostic@),
            Reply::Unread(description) => ReplyView::Unread(description@),
            Reply::Envelope(body) => ReplyView::Envelope(body@),
            Reply::Text(status, text) => ReplyView::Text(*status, text@),
        }
    }
}

/// Description of a body whose length no buffer can have.
pub const LENGTH_OUT_OF_RANGE: &'static str = "out of range integral type conversion attempted";

/// The room to make for the body of an answer before it is read: the length
/// that the transport states, none where it states no length. A length that
/// no buffer can have ends the call.
pub fn body_capacity(length: Option<u64>) -> (r: Result<usize, Error>)
    ensures
        match length {
            None => r == Ok::<usize, Error>(0),
            Some(n) => if n <= usize::MAX {
                r == Ok::<usize, Error>(n as usize)
            } else {
                r is Err && r->Err_0@ == ErrorView::Other(LENGTH_OUT_OF_RANGE@)
            },
        },
{
    match length {
        None => Ok(0),
        Some(n) => if n <= usize::MAX as u64 {
            Ok(n as usize)
        } else {
            Err(Error::Other(LENGTH_OUT_OF_RANGE.to_owned()))
        },
    }
}

/// Whether an answer with this status carries an envelope, so that its body is
/// wanted as bytes ([`Reply::Envelope`]) and not as text ([`Reply::Text`]).
pub fn status_is_ok(status: u16) -> (ok: bool)
    ensures
        ok == (status == HTTP_OK),
{
    status == HTTP_OK
}

/// A JSON-RPC client for one endpoint, with the encoding `C`.
pub struct HttpClient<C: Encoder> {
    req_id: usize,
    url: String,
    timeout: Duration,
    encoder: C,
}

/// An [`HttpClient`] as a mathematical value.
pub struct ClientView<C> {
    /// The id that the next call is sent under.
    pub next_id: usize,
    pub url: Seq<char>,
    pub timeout: Duration,
    pub encoder: C,
}

impl<C: Encoder> View for HttpClient<C> {
    type V = ClientView<C>;

    closed spec fn view(&self) -> ClientView<C> {
        ClientView { next_id: self.req_id, url: self.url@, timeout: self.timeout, encoder: self.encoder }
    }
}

impl<C: Encoder> ClientView<C> {
    /// The client after it has issued one id more.
    pub open spec fn after_call(self) -> ClientView<C> {
        ClientView { next_id: following(self.next_id), ..self }
    }

    /// The client after it has issued `calls` ids more.
    pub open spec fn after_calls(self, calls: nat) -> ClientView<C>
        decreases calls,
    {
        if calls == 0 {
            self
        } else {
            self.after_calls((calls - 1) as nat).after_call()
        }
    }

    /// What the transport is asked to send for the call of `method` with
    /// `params` under `id`: the encoded envelope as the body of a POST to the
    /// endpoint, with the encoder's content type and the client's timeout.
    /// Where the envelope cannot be encoded, the description of that.
    pub open spec fn request_for(self, id: usize, method: Seq<char>, params: JsonValue) -> Result<
        HttpRequestView,
        ErrorView,
    > {
        match self.encoder.encoding(RequestView::of_call(id, method, params)) {
            Ok(body) => Ok(
                HttpRequestView {
                    method: HTTP_METHOD@,
                    url: self.url,
                    timeout: self.timeout,
                    content_type: self.encoder.mime_type(),
                    body,
                },
            ),
            Err(description) => Err(ErrorView::Other(description)),
        }
    }

    /// What a call that was sent under `id` comes to with the body `buf` of
    /// an answer with status 200: where `buf` decodes to no envelope, the
    /// error of the kind `Other` that describes why; else what the envelope
    /// comes to.
    pub open spec fn response_outcome(self, buf: Seq<u8>, id: usize) -> Result<JsonValue, ErrorView> {
        match self.encoder.decoding(buf) {
            Ok(response) => response.outcome(id),
            Err(description) => Err(ErrorView::Other(description)),
        }
    }

    /// What a call that was sent under `id` comes to with what the transport
    /// reports of its request.
    pub open spec fn reply_outcome(self, reply: ReplyView, id: usize) -> Result<JsonValue, ErrorView> {
        match reply {
            ReplyView::Unsent(diagnostic) => Err(ErrorView::Transport(diagnostic)),
            ReplyView::Unread(description) => Err(ErrorView::Other(description)),
            ReplyView::Envelope(body) => self.response_outcome(body, id),
            ReplyView::Text(status, text) => if status == HTTP_OK {
                self.response_outcome(vstd::utf8::encode_utf8(text), id)
            } else {
                Err(ErrorView::Http(status, text))
            },
        }
    }
}

/// What a call came to, as a mathematical value: the value that the result
/// holds, or the error.
pub open spec fn result_view(r: Result<Value, Error>) -> Result<JsonValue, ErrorView> {
    match r {
        Ok(v) => Ok(document(v)),
        Err(e) => Err(e@),
    }
}

/// What starting a call gave, as a mathematical value.
pub open spec fn request_view(r: Result<HttpRequest, Error>) -> Result<HttpRequestView, ErrorView> {
    match r {
        Ok(request) => Ok(request@),
        Err(e) => Err(e@),
    }
}

impl<C: Encoder> HttpClient<C> {
    /// A client for the endpoint at `url`: it has issued no id, gives a
    /// request five seconds, and encodes with the default encoder of `C`.
    pub fn new(url: &str) -> (client: Self)
        ensures
            client@.next_id == 0,
            client@.url == url@,
            client@.timeout == seconds(DEFAULT_TIMEOUT_SECS),
            call_ensures(C::default, (), client@.encoder),
    {
        HttpClient {
            url: url.to_owned(),
            timeout: duration_from_secs(DEFAULT_TIMEOUT_SECS),
            req_id: 0,
            encoder: C::default(),
        }
    }

    /// The same client with another timeout.
    pub fn timeout(self, timeout: Duration) -> (client: Self)
        ensures
            client@ == (ClientView { timeout, ..self@ }),
    {
        let mut client = self;
        client.timeout = timeout;
        client
    }

    /// Issues the id of the next call. No id is issued twice before the
    /// counter has gone round.
    pub fn next_id(&mut self) -> (id: usize)
        ensures
            id == old(self)@.next_id,
            final(self)@ == old(self)@.after_call(),
    {
        let id = self.req_id;
        self.req_id = if id == usize::MAX {
            0
        } else {
            id + 1
        };
        id
    }

    /// What the transport is to send for the call of `method` with `params`
    /// under `id`: the encoded envelope as the body of a POST to the endpoint,
    /// with the encoder's content type and the client's timeout.
    pub fn request(&self, id: usize, method: &str, params: &Value) -> (r: Result<HttpRequest, Error>)
        ensures
            request_view(r) == self@.request_for(id, method@, document(*params)),
    {
        let envelope = Request::new(id, method, params);
        let body = self.encoder.encode(&envelope)?;
        Ok(
            HttpRequest {
                method: HTTP_METHOD,
                url: self.url.clone(),
                timeout: self.timeout,
                content_type: self.encoder.mime(),
                body,
            },
        )
    }

    /// Starts a call: issues its id and gives what the transport is to send.
    /// The id is spent whether or not the envelope can be encoded.
    pub fn prepare_http_request(&mut self, method: &str, params: &Value) -> (r: Result<
        (HttpRequest, usize),
        Error,
    >)
        ensures
            final(self)@ == old(self)@.after_call(),
            match r {
                Ok((request, id)) => id == old(self)@.next_id && old(self)@.request_for(
                    id,
                    method@,
                    document(*params),
                ) == Ok::<HttpRequestView, ErrorView>(request@),
                Err(e) => old(self)@.request_for(old(self)@.next_id, method@, document(*params)) == Err::<
                    HttpRequestView,
                    ErrorView,
                >(e@),
            },
    {
        let id = self.next_id();
        let request = self.request(id, method, params)?;
        Ok((request, id))
    }

    /// Decodes the body of an answer with status 200 and checks it for the
    /// call that was sent under `id`: the result that the envelope holds, or
    /// the first thing that is wrong with the answer.
    pub fn parse_response(&self, buf: &[u8], id: usize) -> (r: Result<Value, Error>)
        ensures
            result_view(r) == self@.response_outcome(buf@, id),
    {
        let response = self.encoder.decode(buf)?;
        response.into_result(id)
    }

    /// Ends a call that was sent under `id` with what the transport reports:
    /// a request that was not sent fails as a transport error, a body that
    /// was not read as an error of the kind `Other`, an answer with another
    /// status than 200 as an HTTP error with that status and its text, and
    /// the body of an answer with status 200 is parsed as [`parse_response`]
    /// does.
    ///
    /// [`parse_response`]: HttpClient::parse_response
    pub fn complete(&self, reply: Reply, id: usize) -> (r: Result<Value, Error>)
        ensures
            result_view(r) == self@.reply_outcome(reply@, id),
    {
        match reply {
            Reply::Unsent(diagnostic) => Err(Error::Transport(diagnostic)),
            Reply::Unread(description) => Err(Error::Other(description)),
            Reply::Envelope(body) => self.parse_response(body.as_slice(), id),
            Reply::Text(status, text) => if status_is_ok(status) {
                self.parse_response(text.as_str().as_bytes(), id)
            } else {
                Err(Error::Http(status, text))
            },
        }
    }
}

/// After `calls` calls, a client that has issued its ids from zero on sends
/// the next call under the id `calls`, however the calls before it ended.
/// (After the largest id the counter starts again at zero.)
pub proof fn lemma_ids_count_up<C: Encoder>(client: ClientView<C>, calls: nat)
    requires
        client.next_id == 0,
        calls <= usize::MAX,
    ensures
        client.after_calls(calls).next_id == calls,
    decreases calls,
{
    if calls > 0 {
        lemma_ids_count_up(client, (calls - 1) as nat);
    }
}

/// The ids of the first `n` calls of a client that issues its ids from zero on
/// are just the numbers below `n`, whatever the calls come to.
pub proof fn lemma_ids_of_first_calls<C: Encoder>(client: ClientView<C>, n: nat)
    requires
        client.next_id == 0,
        n <= usize::MAX + 1,
    ensures
        Set::new(|id: int| exists|k: nat| k < n && #[trigger] client.after_calls(k).next_id == id) == Set::new(
            |id: int| 0 <= id < n,
        ),
{
    let issued = Set::new(|id: int| exists|k: nat| k < n && #[trigger] client.after_calls(k).next_id == id);
    let below = Set::new(|id: int| 0 <= id < n);
    assert forall|id: int| issued.contains(id) implies below.contains(id) by {
        let k = choose|k: nat| k < n && #[trigger] client.after_calls(k).next_id == id;
        lemma_ids_count_up(client, k);
    }
    assert forall|id: int| below.contains(id) implies issued.contains(id) by {
        lemma_ids_count_up(client, id as nat);
        assert(client.after_calls(id as nat).next_id == id);
    }
    assert(issued =~= below);
}

/// No two of the calls of a client that issues its ids from zero on are sent
/// under the same id, as long as the counter has not gone round.
pub proof fn lemma_ids_differ<C: Encoder>(client: ClientView<C>, earlier: nat, later: nat)
    requires
        client.next_id == 0,
        earlier < later <= usize::MAX,
    ensures
        client.after_calls(earlier).next_id != client.after_calls(later).next_id,
{
    lemma_ids_count_up(client, earlier);
    lemma_ids_count_up(client, later);
}

/// A call whose answer echoes another id than it was sent under fails with the
/// protocol error of the invalid id and gives no result, whatever result or
/// error the answer holds. (An answer that is no envelope, or one of another
/// protocol version, is reported as that first.)
pub proof fn lemma_answer_with_other_id<C: Encoder>(client: ClientView<C>, buf: Seq<u8>, id: usize)
    requires
        client.encoder.decoding(buf) is Ok,
        client.encoder.decoding(buf)->Ok_0.jsonrpc == JSONRPC_VER@,
        client.encoder.decoding(buf)->Ok_0.id != id,
    ensures
        client.response_outcome(buf, id) == Err::<JsonValue, ErrorView>(ErrorView::Protocol(INVALID_ID@)),
        client.reply_outcome(ReplyView::Envelope(buf), id) == Err::<JsonValue, ErrorView>(
            ErrorView::Protocol(INVALID_ID@),
        ),
{
}

/// A call whose answer passes the checks of version and id and holds both a
/// result and an error fails with the server's error, and never gives the
/// result.
pub proof fn lemma_answer_with_error_and_result<C: Encoder>(client: ClientView<C>, buf: Seq<u8>, id: usize)
    requires
        client.encoder.decoding(buf) is Ok,
        client.encoder.decoding(buf)->Ok_0.answers(id),
        client.encoder.decoding(buf)->Ok_0.error is Some,
        client.encoder.decoding(buf)->Ok_0.result is Some,
    ensures
        client.response_outcome(buf, id) == Err::<JsonValue, ErrorView>(
            ErrorView::Rpc(client.encoder.decoding(buf)->Ok_0.error->Some_0),
        ),
{
}

/// A call whose answer passes the checks of version and id and holds neither
/// a result nor an error fails with the protocol error of the missing fields.
pub proof fn lemma_answer_with_neither<C: Encoder>(client: ClientView<C>, buf: Seq<u8>, id: usize)
    requires
        client.encoder.decoding(buf) is Ok,
        client.encoder.decoding(buf)->Ok_0.answers(id),
        client.encoder.decoding(buf)->Ok_0.error is None,
        client.encoder.decoding(buf)->Ok_0.result is None,
    ensures
        client.response_outcome(buf, id) == Err::<JsonValue, ErrorView>(
            ErrorView::Protocol(NO_RESULT_OR_ERROR@),
        ),
{
}

/// An answer with another status than 200 ends the call with an HTTP error of
/// that status and the body's text, whatever the body holds: it is never read
/// as an envelope.
pub proof fn lemma_other_status_is_refused<C: Encoder>(
    client: ClientView<C>,
    status: u16,
    text: Seq<char>,
    id: usize,
)
    requires
        status != HTTP_OK,
    ensures
        client.reply_outcome(ReplyView::Text(status, text), id) == Err::<JsonValue, ErrorView>(
            ErrorView::Http(status, text),
        ),
{
}

/// The client for the endpoint at `url` with the textual encoding.
pub fn http_client(url: &str) -> (client: HttpClient<Json>)
    ensures
        client@.next_id == 0,
        client@.url == url@,
        client@.timeout == seconds(DEFAULT_TIMEOUT_SECS),
        client@.encoder == (Json {}),
{
    HttpClient::<Json>::new(url)
}

} // verus!
