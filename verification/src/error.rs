//! The one error type of a call, and the error object that a server reports.

use crate::decimal::{decimal, signed_decimal, signed_to_string, unsigned_to_string};
use vstd::prelude::*;
use vstd::string::StringExecFns;

verus! {

/// Reason of the protocol error for an envelope of another protocol version.
pub const INVALID_VERSION: &'static str = "invalid JSON RPC version";

/// Reason of the protocol error for an envelope that answers another request.
pub const INVALID_ID: &'static str = "invalid response ID";

/// Reason of the protocol error for an envelope with neither result nor error.
pub const NO_RESULT_OR_ERROR: &'static str = "no result/error fields";

/// What a rendered protocol error starts with.
pub const PROTOCOL_PREFIX: &'static str = "invalid server response: ";

/// The error object of a response envelope: what the server reported.
#[derive(Debug, Clone, PartialEq, Eq)]
pub struct RpcError {
    code: i16,
    message: Option<String>,
}

/// An [`RpcError`] as a mathematical value.
pub struct RpcErrorView {
    pub code: i16,
    pub message: Option<Seq<char>>,
}

impl View for RpcError {
    type V = RpcErrorView;

    closed spec fn view(&self) -> RpcErrorView {
        RpcErrorView {
            code: self.code,
            message: match self.message {
                Some(m) => Some(m@),
                None => None,
            },
        }
    }
}

impl RpcErrorView {
    /// The message, or the empty text where there is none.
    pub open spec fn message_or_empty(self) -> Seq<char> {
        match self.message {
            Some(m) => m,
            None => Seq::empty(),
        }
    }
}

impl RpcError {
    pub fn new(code: i16, message: Option<String>) -> (e: RpcError)
        ensures
            e@.code == code,
            e@.message == match message {
                Some(m) => Some(m@),
                None => None,
            },
    {
        RpcError { code, message }
    }

    pub fn code(&self) -> (c: i16)
        ensures
            c == self@.code,
    {
        self.code
    }

    pub fn message(&self) -> (m: Option<&str>)
        ensures
            match m {
                Some(s) => self@.message == Some(s@),
                None => self@.message is None,
            },
    {
        match &self.message {
            Some(s) => Some(s.as_str()),
            None => None,
        }
    }
}

/// Every way in which a call fails.
#[derive(Debug, Clone, PartialEq, Eq)]
pub enum Error {
    /// The response breaks a rule of the envelope; carries the reason.
    Protocol(&'static str),
    /// The server reported a failure of its own.
    Rpc(RpcError),
    /// The request could not be sent; carries the transport's diagnostic.
    Transport(String),
    /// The endpoint answered with a status other than 200; carries the status
    /// and the body as text.
    Http(u16, String),
    /// Encoding or decoding failed, or the body could not be read; carries
    /// the cause's description.
    Other(String),
}

/// An [`Error`] as a mathematical value.
pub enum ErrorView {
    Protocol(Seq<char>),
    Rpc(RpcErrorView),
    Transport(Seq<char>),
    Http(u16, Seq<char>),
    Other(Seq<char>),
}

impl View for Error {
    type V = ErrorView;

    open spec fn view(&self) -> ErrorView {
        match self {
            Error::Protocol(reason) => ErrorView::Protocol(reason@),
            Error::Rpc(e) => ErrorView::Rpc(e@),
            Error::Transport(diagnostic) => ErrorView::Transport(diagnostic@),
            Error::Http(status, body) => ErrorView::Http(*status, body@),
            Error::Other(description) => ErrorView::Other(description@),
        }
    }
}

/// The status line that `http::StatusCode` displays for `status`: the number
/// and the canonical reason phrase. `None` for a number that is no status code.
pub uninterp spec fn http_status_text(status: u16) -> Option<Seq<char>>;

/// `http::StatusCode::from_u16` and the `Display` of the status code it gives.
/// The text depends on the number alone; nothing is claimed of what it holds.
#[verifier::external_body]
fn status_text(status: u16) -> (text: Option<String>)
    ensures
        match text {
            Some(t) => http_status_text(status) == Some(t@),
            None => http_status_text(status) is None,
        },
{
    match http::StatusCode::from_u16(status) {
        Ok(code) => Some(code.to_string()),
        Err(_) => None,
    }
}

/// How a status is written in a rendered error: as `http` displays it, or as a
/// bare number where `http` knows no such status.
pub open spec fn status_rendering(status: u16) -> Seq<char> {
    match http_status_text(status) {
        Some(text) => text,
        None => decimal(status as nat),
    }
}

impl ErrorView {
    /// The text that an error is rendered to.
    pub open spec fn rendering(self) -> Seq<char> {
        match self {
            ErrorView::Protocol(reason) => PROTOCOL_PREFIX@ + reason,
            ErrorView::Rpc(e) => signed_decimal(e.code as int) + seq![' '] + e.message_or_empty(),
            ErrorView::Transport(diagnostic) => diagnostic,
            ErrorView::Http(status, body) => status_rendering(status) + seq![' '] + body,
            ErrorView::Other(description) => description,
        }
    }
}

impl Error {
    /// Renders the error for a log or a display.
    pub fn to_string(&self) -> (text: String)
        ensures
            text@ == self@.rendering(),
    {
        proof {
            reveal_strlit(" ");
        }
        match self {
            Error::Protocol(reason) => {
                let text = String::from_str(PROTOCOL_PREFIX).concat(reason);
                text
            },
            Error::Rpc(e) => {
                let mut text = signed_to_string(e.code as i64);
                text.append(" ");
                match &e.message {
                    Some(m) => text.append(m.as_str()),
                    None => {},
                }
                assert(text@ =~= self@.rendering());
                text
            },
            Error::Transport(diagnostic) => diagnostic.clone(),
            Error::Http(status, body) => {
                let mut text = match status_text(*status) {
                    Some(t) => t,
                    None => unsigned_to_string(*status as u64),
                };
                text.append(" ");
                text.append(body.as_str());
                assert(text@ =~= self@.rendering());
                text
            },
            Error::Other(description) => description.clone(),
        }
    }
}

} // verus!
