use mcp_bridge::json::{encode_json, Json};
use mcp_bridge::protocol::{decode_request, encode_response, JsonRpcResponse};

#[test]
fn request_fields_are_read() {
    let req = decode_request(
        "{\"jsonrpc\":\"2.0\",\"id\":1,\"method\":\"ping\",\"params\":{\"a\":2}}",
    )
    .unwrap();
    assert_eq!(req.jsonrpc, "2.0");
    assert_eq!(req.method, "ping");
    assert_eq!(encode_json(&req.id.unwrap()), "1");
    assert_eq!(encode_json(&req.params), "{\"a\":2}");
}

#[test]
fn missing_or_null_id_marks_a_notification() {
    let req = decode_request("{\"jsonrpc\":\"2.0\",\"method\":\"ping\"}").unwrap();
    assert!(req.id.is_none());
    let req = decode_request("{\"jsonrpc\":\"2.0\",\"id\":null,\"method\":\"ping\"}").unwrap();
    assert!(req.id.is_none());
}

#[test]
fn missing_params_default_to_the_empty_object() {
    let req = decode_request("{\"jsonrpc\":\"2.0\",\"id\":1,\"method\":\"ping\"}").unwrap();
    assert_eq!(encode_json(&req.params), "{}");
}

#[test]
fn the_protocol_tag_must_be_a_string() {
    assert!(decode_request("{\"jsonrpc\":2,\"id\":1,\"method\":\"ping\"}").is_none());
    assert!(decode_request("{\"id\":1,\"method\":\"ping\"}").is_none());
    assert!(decode_request("{\"jsonrpc\":\"2.0\",\"id\":1}").is_none());
    assert!(decode_request("{\"jsonrpc\":\"2.0\",\"id\":1,\"method\":7}").is_none());
    assert!(decode_request("[]").is_none());
    // The tag's value itself is carried, not judged.
    let req = decode_request("{\"jsonrpc\":\"1.0\",\"id\":1,\"method\":\"m\"}").unwrap();
    assert_eq!(req.jsonrpc, "1.0");
}

#[test]
fn opaque_ids_are_preserved() {
    let req = decode_request(
        "{\"jsonrpc\":\"2.0\",\"id\":{\"k\":[1,2]},\"method\":\"m\"}",
    )
    .unwrap();
    assert_eq!(encode_json(&req.id.unwrap()), "{\"k\":[1,2]}");
}

#[test]
fn success_and_error_responses_encode_exactly() {
    let r = JsonRpcResponse::success(Some(Json::Int(1)), Json::Bool(true));
    assert_eq!(encode_response(r), "{\"jsonrpc\":\"2.0\",\"id\":1,\"result\":true}");
    let r = JsonRpcResponse::success(None, Json::Null);
    assert_eq!(encode_response(r), "{\"jsonrpc\":\"2.0\",\"id\":null,\"result\":null}");
    let r = JsonRpcResponse::error(Some(Json::Str("a".to_string())), -32700, "Parse error");
    assert_eq!(
        encode_response(r),
        "{\"jsonrpc\":\"2.0\",\"id\":\"a\",\"error\":{\"code\":-32700,\"message\":\"Parse error\"}}"
    );
}

#[test]
fn encoded_responses_match_the_reference_encoder() {
    let r = JsonRpcResponse::error(Some(Json::Int(5)), -32601, "no \"such\" method\n");
    let line = encode_response(r);
    assert!(!line.contains('\n'));
    let ours: serde_json::Value = serde_json::from_str(&line).unwrap();
    let expected: serde_json::Value = serde_json::from_str(
        "{\"jsonrpc\":\"2.0\",\"id\":5,\"error\":{\"code\":-32601,\"message\":\"no \\\"such\\\" method\\n\"}}",
    )
    .unwrap();
    assert_eq!(ours, expected);
}
