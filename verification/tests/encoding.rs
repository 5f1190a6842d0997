use bma_jrpc::decimal::{signed_to_string, unsigned_to_string};
use bma_jrpc::{Encoder, Json, MsgPack, Request};
use serde_json::Value;

fn concat_all(parts: &[&str]) -> String {
    parts.concat()
}

#[test]
fn json_mime() {
    assert_eq!(Json::default().mime(), "application/json");
}

#[test]
fn msgpack_mime() {
    assert_eq!(MsgPack::default().mime(), "application/msgpack");
}

#[test]
fn json_request_has_the_exact_shape() {
    let params = Value::Null;
    let bytes = Json::default().encode(&Request::new(0, "get_answer", &params)).unwrap();
    assert_eq!(
        std::str::from_utf8(&bytes).unwrap(),
        r#"{"jsonrpc":"2.0","id":0,"method":"get_answer","params":null}"#
    );
}

#[test]
fn json_request_escapes_the_method_and_writes_the_params() {
    let params: Value = serde_json::from_str(r#"{"b":[1,2.5,"x"],"a":{"k":null}}"#).unwrap();
    let bytes = Json::default().encode(&Request::new(1234567890, "say \"hi\"\n", &params)).unwrap();
    assert_eq!(
        std::str::from_utf8(&bytes).unwrap(),
        concat_all(&[
            r#"{"jsonrpc":"2.0","id":1234567890,"method":"say \"hi\"\n","#,
            r#""params":{"a":{"k":null},"b":[1,2.5,"x"]}}"#,
        ])
    );
}

#[test]
fn json_request_round_trips() {
    let params: Value = serde_json::from_str(r#"{"name":"x","list":[1,2,3],"deep":{"t":true}}"#).unwrap();
    let request = Request::new(usize::MAX, "do.it", &params);
    let bytes = Json::default().encode(&request).unwrap();
    let back: Value = serde_json::from_slice(&bytes).unwrap();
    let members = back.as_object().unwrap();
    assert_eq!(members.len(), 4);
    assert_eq!(back["jsonrpc"], Value::from(request.jsonrpc));
    assert_eq!(back["id"], Value::from(request.id));
    assert_eq!(back["method"], Value::from(request.method));
    assert_eq!(back["params"], params);
}

#[test]
fn msgpack_request_has_the_exact_shape() {
    let params = Value::Null;
    let bytes = MsgPack::default().encode(&Request::new(0, "get", &params)).unwrap();
    let mut expected = vec![0x84u8];
    expected.push(0xa7);
    expected.extend_from_slice(b"jsonrpc");
    expected.push(0xa3);
    expected.extend_from_slice(b"2.0");
    expected.push(0xa2);
    expected.extend_from_slice(b"id");
    expected.push(0x00);
    expected.push(0xa6);
    expected.extend_from_slice(b"method");
    expected.push(0xa3);
    expected.extend_from_slice(b"get");
    expected.push(0xa6);
    expected.extend_from_slice(b"params");
    expected.push(0xc0);
    assert_eq!(bytes, expected);
}

#[test]
fn msgpack_request_writes_a_wide_id() {
    let params = Value::from(true);
    let bytes = MsgPack::default().encode(&Request::new(300, "m", &params)).unwrap();
    let mut expected = vec![0x84u8];
    expected.push(0xa7);
    expected.extend_from_slice(b"jsonrpc");
    expected.push(0xa3);
    expected.extend_from_slice(b"2.0");
    expected.push(0xa2);
    expected.extend_from_slice(b"id");
    expected.extend_from_slice(&[0xcd, 0x01, 0x2c]);
    expected.push(0xa6);
    expected.extend_from_slice(b"method");
    expected.push(0xa1);
    expected.extend_from_slice(b"m");
    expected.push(0xa6);
    expected.extend_from_slice(b"params");
    expected.push(0xc3);
    assert_eq!(bytes, expected);
}

#[test]
fn msgpack_request_round_trips() {
    let params: Value = serde_json::from_str(r#"{"name":"x","list":[1,2,3],"deep":{"t":true}}"#).unwrap();
    let request = Request::new(70000, "do.it", &params);
    let bytes = MsgPack::default().encode(&request).unwrap();
    let back: Value = rmp_serde::from_slice(&bytes).unwrap();
    let members = back.as_object().unwrap();
    assert_eq!(members.len(), 4);
    assert_eq!(back["jsonrpc"], Value::from(request.jsonrpc));
    assert_eq!(back["id"], Value::from(request.id));
    assert_eq!(back["method"], Value::from(request.method));
    assert_eq!(back["params"], params);
}

#[test]
fn json_decode_reads_every_member() {
    let body = br#"{"jsonrpc":"2.0","id":17,"result":[1,2],"error":{"code":-5,"message":"m"}}"#;
    let response = Json::default().decode(body).unwrap();
    assert_eq!(response.jsonrpc, "2.0");
    assert_eq!(response.id, 17);
    assert_eq!(response.result, Some(Value::from(vec![1, 2])));
    let error = response.error.unwrap();
    assert_eq!(error.code(), -5);
    assert_eq!(error.message(), Some("m"));
}

#[test]
fn json_decode_keeps_a_foreign_version() {
    // Decoding checks no rule: the version is only read.
    let response = Json::default().decode(br#"{"jsonrpc":"1.0","id":0}"#).unwrap();
    assert_eq!(response.jsonrpc, "1.0");
    assert_eq!(response.result, None);
    assert_eq!(response.error, None);
}

#[test]
fn msgpack_decode_reads_every_member() {
    let envelope: Value =
        serde_json::from_str(r#"{"jsonrpc":"2.0","id":17,"result":"ok","error":{"code":9}}"#).unwrap();
    let body = rmp_serde::to_vec_named(&envelope).unwrap();
    let response = MsgPack::default().decode(&body).unwrap();
    assert_eq!(response.jsonrpc, "2.0");
    assert_eq!(response.id, 17);
    assert_eq!(response.result, Some(Value::from("ok")));
    let error = response.error.unwrap();
    assert_eq!(error.code(), 9);
    assert_eq!(error.message(), None);
}

#[test]
fn msgpack_decode_refuses_garbage() {
    assert!(MsgPack::default().decode(&[0xc1]).is_err());
    assert!(MsgPack::default().decode(&[]).is_err());
    assert!(MsgPack::default().decode(br#"{"jsonrpc":"2.0","id":0,"result":1}"#).is_err());
}

#[test]
fn decimal_of_unsigned() {
    assert_eq!(unsigned_to_string(0), "0");
    assert_eq!(unsigned_to_string(9), "9");
    assert_eq!(unsigned_to_string(10), "10");
    assert_eq!(unsigned_to_string(1234567890), "1234567890");
    assert_eq!(unsigned_to_string(u64::MAX), "18446744073709551615");
}

#[test]
fn decimal_of_signed() {
    assert_eq!(signed_to_string(0), "0");
    assert_eq!(signed_to_string(-1), "-1");
    assert_eq!(signed_to_string(-32601), "-32601");
    assert_eq!(signed_to_string(i64::MAX), "9223372036854775807");
    assert_eq!(signed_to_string(i64::MIN), "-9223372036854775808");
}
