use bma_jrpc::client::{body_capacity, status_is_ok, CONTENT_TYPE, DEFAULT_TIMEOUT_SECS, HTTP_METHOD, HTTP_OK};
use bma_jrpc::{http_client, HttpClient, Json, MsgPack};
use serde_json::Value;
use std::time::Duration;

const ENDPOINT: &str = "http://localhost:7727/jrpc";

#[test]
fn ids_count_up_from_zero() {
    let mut client = http_client(ENDPOINT);
    for expected in 0..100usize {
        assert_eq!(client.next_id(), expected);
    }
}

#[test]
fn every_call_spends_one_id() {
    let mut client = http_client(ENDPOINT);
    let mut seen = Vec::new();
    for _ in 0..50 {
        let (_, id) = client.prepare_http_request("m", &Value::Null).unwrap();
        seen.push(id);
    }
    assert_eq!(seen, (0..50usize).collect::<Vec<usize>>());
}

#[test]
fn ids_are_spent_whatever_the_call_comes_to() {
    let mut client = http_client(ENDPOINT);
    let (_, first) = client.prepare_http_request("m", &Value::Null).unwrap();
    assert!(client.parse_response(b"not an envelope", first).is_err());
    let (_, second) = client.prepare_http_request("m", &Value::Null).unwrap();
    assert!(client.parse_response(br#"{"jsonrpc":"2.0","id":1,"result":1}"#, second).is_ok());
    let (_, third) = client.prepare_http_request("m", &Value::Null).unwrap();
    assert_eq!((first, second, third), (0, 1, 2));
}

#[test]
fn request_carries_the_id_it_was_given() {
    let client = http_client(ENDPOINT);
    let request = client.request(77, "m", &Value::Null).unwrap();
    assert_eq!(
        std::str::from_utf8(&request.body).unwrap(),
        r#"{"jsonrpc":"2.0","id":77,"method":"m","params":null}"#
    );
}

#[test]
fn new_client_asks_for_a_post_with_five_seconds() {
    let mut client = HttpClient::<Json>::new(ENDPOINT);
    let (request, id) = client.prepare_http_request("get_answer", &Value::from(1)).unwrap();
    assert_eq!(id, 0);
    assert_eq!(request.method, "POST");
    assert_eq!(request.url, ENDPOINT);
    assert_eq!(request.timeout, Duration::from_secs(5));
    assert_eq!(request.content_type, "application/json");
    assert_eq!(
        std::str::from_utf8(&request.body).unwrap(),
        r#"{"jsonrpc":"2.0","id":0,"method":"get_answer","params":1}"#
    );
}

#[test]
fn timeout_replaces_the_default() {
    let mut client = http_client(ENDPOINT).timeout(Duration::from_millis(1500));
    let (request, id) = client.prepare_http_request("m", &Value::Null).unwrap();
    assert_eq!(request.timeout, Duration::from_millis(1500));
    assert_eq!(request.url, ENDPOINT);
    assert_eq!(id, 0);
}

#[test]
fn msgpack_client_states_its_content_type() {
    let mut client = HttpClient::<MsgPack>::new(ENDPOINT);
    let (request, _) = client.prepare_http_request("m", &Value::Null).unwrap();
    assert_eq!(request.content_type, "application/msgpack");
    assert_eq!(request.body[0], 0x84);
}

#[test]
fn only_two_hundred_is_ok() {
    assert!(status_is_ok(200));
    for status in [0u16, 100, 199, 201, 204, 299, 301, 404, 500, u16::MAX] {
        assert!(!status_is_ok(status));
    }
}

#[test]
fn constants_of_the_transport() {
    assert_eq!(HTTP_OK, 200);
    assert_eq!(HTTP_METHOD, "POST");
    assert_eq!(CONTENT_TYPE, "content-type");
    assert_eq!(DEFAULT_TIMEOUT_SECS, 5);
}

#[test]
fn capacity_is_the_stated_length() {
    assert_eq!(body_capacity(None), Ok(0));
    assert_eq!(body_capacity(Some(0)), Ok(0));
    assert_eq!(body_capacity(Some(4096)), Ok(4096));
}

#[test]
fn capacity_beyond_any_buffer_is_an_other_error() {
    match u64::try_from(usize::MAX) {
        Ok(largest) if largest < u64::MAX => assert_eq!(
            body_capacity(Some(largest + 1)),
            Err(bma_jrpc::Error::Other("out of range integral type conversion attempted".to_owned()))
        ),
        _ => assert_eq!(body_capacity(Some(u64::MAX)), Ok(usize::MAX)),
    }
}
