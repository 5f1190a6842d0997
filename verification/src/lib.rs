//! The core of a JSON-RPC 2.0 client: correlated request envelopes, two wire
//! encodings, the validation of responses, and one error type for every way in
//! which a call can fail.
//!
//! The core sends nothing itself. A call goes in three steps:
//!
//! 1. [`HttpClient::prepare_http_request`] issues the id of the call and gives
//!    the [`HttpRequest`] that the transport is to send.
//! 2. The caller sends it, and puts what came of it into a [`Reply`].
//! 3. [`HttpClient::complete`] makes the result of the call of the reply, or
//!    the [`Error`] that the call fails with.
//!
//! Parameters and results are JSON documents (`serde_json::Value`) in both
//! encodings. The contracts speak of a document by the value that it holds,
//! [`json::JsonValue`].

pub mod client;
pub mod decimal;
pub mod document;
pub mod encoder;
pub mod envelope;
pub mod error;
pub mod json;
pub mod msgpack;

pub use client::{http_client, HttpClient, HttpRequest, Reply};
pub use encoder::{Encoder, Json, MsgPack};
pub use envelope::{Request, Response};
pub use error::{Error, RpcError};
