use bma_jrpc::{http_client, Error, HttpClient, Json, MsgPack, Reply, RpcError};
use serde_json::Value;

const ENDPOINT: &str = "http://localhost:7727/jrpc";

#[test]
fn ok_reply_with_result_returns_it() {
    let mut client = http_client(ENDPOINT);
    let (_, id) = client.prepare_http_request("get_answer", &Value::Null).unwrap();
    let body = br#"{"jsonrpc":"2.0","id":0,"result":42}"#.to_vec();
    assert_eq!(client.complete(Reply::Envelope(body), id), Ok(Value::from(42)));
}

#[test]
fn ok_reply_with_error_fails_with_it() {
    let mut client = http_client(ENDPOINT);
    let (_, id) = client.prepare_http_request("get_answer", &Value::Null).unwrap();
    let body = br#"{"jsonrpc":"2.0","id":0,"error":{"code":-32601,"message":"method not found"}}"#.to_vec();
    match client.complete(Reply::Envelope(body), id) {
        Err(Error::Rpc(e)) => {
            assert_eq!(e.code(), -32601);
            assert_eq!(e.message(), Some("method not found"));
        }
        other => panic!("unexpected outcome: {:?}", other),
    }
}

#[test]
fn other_status_fails_with_status_and_body() {
    let mut client = http_client(ENDPOINT);
    let (_, id) = client.prepare_http_request("get_answer", &Value::Null).unwrap();
    let reply = Reply::Text(500, "internal error".to_owned());
    assert_eq!(
        client.complete(reply, id),
        Err(Error::Http(500, "internal error".to_owned()))
    );
}

#[test]
fn other_status_never_parses_the_body() {
    // The body would be a fine envelope; the status alone decides.
    let mut client = http_client(ENDPOINT);
    let (_, id) = client.prepare_http_request("get_answer", &Value::Null).unwrap();
    let text = r#"{"jsonrpc":"2.0","id":0,"result":42}"#.to_owned();
    assert_eq!(
        client.complete(Reply::Text(404, text.clone()), id),
        Err(Error::Http(404, text))
    );
}

#[test]
fn ok_status_with_text_is_parsed() {
    let mut client = http_client(ENDPOINT);
    let (_, id) = client.prepare_http_request("get_answer", &Value::Null).unwrap();
    let text = r#"{"jsonrpc":"2.0","id":0,"result":42}"#.to_owned();
    assert_eq!(client.complete(Reply::Text(200, text), id), Ok(Value::from(42)));
}

#[test]
fn same_call_gives_same_bytes() {
    let params: Value = serde_json::from_str(r#"{"name":"x","count":3}"#).unwrap();
    let mut blocking = http_client(ENDPOINT);
    let mut suspending = http_client(ENDPOINT);
    let (first, first_id) = blocking.prepare_http_request("echo", &params).unwrap();
    let (second, second_id) = suspending.prepare_http_request("echo", &params).unwrap();
    assert_eq!(first_id, second_id);
    assert_eq!(first.body, second.body);
    assert_eq!(first, second);
}

#[test]
fn same_call_gives_same_bytes_in_msgpack() {
    let params = Value::from(vec![1, 2, 3]);
    let mut blocking = HttpClient::<MsgPack>::new(ENDPOINT);
    let mut suspending = HttpClient::<MsgPack>::new(ENDPOINT);
    let (first, _) = blocking.prepare_http_request("echo", &params).unwrap();
    let (second, _) = suspending.prepare_http_request("echo", &params).unwrap();
    assert_eq!(first, second);
}

#[test]
fn unsent_request_is_a_transport_error() {
    let client = HttpClient::<Json>::new(ENDPOINT);
    assert_eq!(
        client.complete(Reply::Unsent("timed out".to_owned()), 0),
        Err(Error::Transport("timed out".to_owned()))
    );
}

#[test]
fn unread_body_is_an_other_error() {
    let client = HttpClient::<Json>::new(ENDPOINT);
    assert_eq!(
        client.complete(Reply::Unread("connection reset".to_owned()), 0),
        Err(Error::Other("connection reset".to_owned()))
    );
}

#[test]
fn rpc_error_keeps_code_and_message() {
    let e = RpcError::new(-32000, Some("boom".to_owned()));
    assert_eq!(e.code(), -32000);
    assert_eq!(e.message(), Some("boom"));
    let e = RpcError::new(7, None);
    assert_eq!(e.code(), 7);
    assert_eq!(e.message(), None);
}

#[test]
fn msgpack_reply_with_result_returns_it() {
    let mut client = HttpClient::<MsgPack>::new(ENDPOINT);
    let (_, id) = client.prepare_http_request("get_answer", &Value::Null).unwrap();
    let envelope: Value = serde_json::from_str(r#"{"jsonrpc":"2.0","id":0,"result":42}"#).unwrap();
    let body = rmp_serde::to_vec_named(&envelope).unwrap();
    assert_eq!(client.complete(Reply::Envelope(body), id), Ok(Value::from(42)));
}

#[test]
fn msgpack_reply_with_error_fails_with_it() {
    let client = HttpClient::<MsgPack>::new(ENDPOINT);
    let envelope: Value =
        serde_json::from_str(r#"{"jsonrpc":"2.0","id":3,"error":{"code":-1,"message":null}}"#).unwrap();
    let body = rmp_serde::to_vec_named(&envelope).unwrap();
    assert_eq!(
        client.parse_response(&body, 3),
        Err(Error::Rpc(RpcError::new(-1, None)))
    );
}
