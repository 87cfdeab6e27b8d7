use port_sync::error::Error;
use port_sync::json::Json;
use port_sync::rpc::{JsonRpcVersion, RpcError, RpcId, RpcOutcome, RpcRequest, RpcResponse};

const RPC_REQ_V1: &str = r#"{"method":"echo","params":["Hello JSON-RPC"],"id":1}"#;
const RPC_REQ_V2: &str = r#"{"jsonrpc":"2.0","method":"confirmFruitPurchase","params":[["apple","orange","mangoes"],1.123],"id":"194521489"}"#;
const RPC_REQ_V2_OBJ: &str =
    r#"{"jsonrpc":"2.0","method":"subtract","params":{"minuend":42,"subtrahend":23},"id":3}"#;

fn text(s: &str) -> Json {
    Json::String(s.to_string())
}

fn number(s: &str) -> Json {
    Json::Number(s.to_string())
}

#[test]
fn rpc_request_v1() {
    let request = RpcRequest::new(
        JsonRpcVersion::V1,
        "echo",
        Json::Array(vec![text("Hello JSON-RPC")]),
        RpcId::Number(1),
    );
    assert_eq!(request.to_json_text(), RPC_REQ_V1);
}

#[test]
fn rpc_request_v2_params_unnamed() {
    let request = RpcRequest::new(
        JsonRpcVersion::V2,
        "confirmFruitPurchase",
        Json::Array(vec![
            Json::Array(vec![text("apple"), text("orange"), text("mangoes")]),
            number("1.123"),
        ]),
        RpcId::String("194521489".into()),
    );
    assert_eq!(request.to_json_text(), RPC_REQ_V2);
}

#[test]
fn rpc_request_v2_params_named() {
    let request = RpcRequest::new(
        JsonRpcVersion::V2,
        "subtract",
        Json::Object(vec![
            ("minuend".to_string(), number("42")),
            ("subtrahend".to_string(), number("23")),
        ]),
        RpcId::Number(3),
    );
    assert_eq!(request.to_json_text(), RPC_REQ_V2_OBJ);
}

#[test]
fn version_member_is_there_for_every_revision_but_the_first() {
    let v1 = RpcRequest::new(JsonRpcVersion::V1, "m", Json::Null, RpcId::Number(0));
    let v2 = RpcRequest::new(JsonRpcVersion::V2, "m", Json::Null, RpcId::Number(0));
    assert_eq!(v1.jsonrpc(), None);
    assert_eq!(v2.jsonrpc(), Some("2.0".to_string()));
    assert!(v1.to_json().get("jsonrpc").is_none());
    assert_eq!(v2.to_json().get("jsonrpc").and_then(|v| v.as_str()), Some("2.0"));
    assert_eq!(v1.method(), "m");
    assert!(v1.params().is_null());
    assert!(matches!(v1.id(), RpcId::Number(0)));
}

#[test]
fn version_numbers_are_written_with_a_dot() {
    assert_eq!(JsonRpcVersion::V1.to_string(), "1.0");
    assert_eq!(JsonRpcVersion::V2.to_string(), "2.0");
}

#[test]
fn id_round_trips_as_the_variant_that_was_sent() {
    let sent = RpcRequest::new(JsonRpcVersion::V1, "m", Json::Null, RpcId::Number(1754000000123456789));
    let echoed = format!("{{\"result\":null,\"error\":null,\"id\":{}}}", sent.id().to_json().to_text());
    let response = RpcResponse::from_json_text(&echoed).unwrap();
    assert!(matches!(response.id(), Some(RpcId::Number(1754000000123456789))));

    let sent = RpcRequest::new(JsonRpcVersion::V1, "m", Json::Null, RpcId::String("17".into()));
    let echoed = format!("{{\"result\":null,\"error\":null,\"id\":{}}}", sent.id().to_json().to_text());
    let response = RpcResponse::from_json_text(&echoed).unwrap();
    assert!(matches!(response.id(), Some(RpcId::String(s)) if s == "17"));
}

#[test]
fn response_with_error_is_a_protocol_error_whatever_the_result() {
    for result in ["null", "true", "false", "[1,2]", "{\"a\":1}", "\"ok\""] {
        let body = format!(
            "{{\"result\":{result},\"error\":{{\"message\":\"Unknown method\",\"code\":2}},\"id\":1}}"
        );
        let response = RpcResponse::from_json_text(&body).unwrap();
        assert!(!response.is_success());
        match response.classify() {
            RpcOutcome::ProtocolError { message, code } => {
                assert_eq!(message, "Unknown method");
                assert_eq!(code, 2);
            }
            other => panic!("{other:?}"),
        }
    }
}

#[test]
fn response_without_error_is_a_success_even_with_a_null_result() {
    for body in [
        "{\"result\":null,\"error\":null,\"id\":1}",
        "{\"result\":null}",
        "{\"result\":null,\"id\":\"x\"}",
    ] {
        let response = RpcResponse::from_json_text(body).unwrap();
        assert!(response.is_success());
        assert!(matches!(response.classify(), RpcOutcome::Success(Json::Null)));
    }
}

#[test]
fn success_carries_the_result() {
    let response = RpcResponse::from_json_text("{\"result\": false, \"error\": null, \"id\": 7}")
        .unwrap();
    assert!(matches!(response.classify(), RpcOutcome::Success(Json::Bool(false))));
    assert!(matches!(response.id(), Some(RpcId::Number(7))));
    assert!(response.error().is_none());
    assert_eq!(response.jsonrpc(), None);
    assert_eq!(response.result().as_bool(), Some(false));
}

#[test]
fn response_members_are_read_as_they_are_written() {
    let body = "{\"jsonrpc\":\"2.0\",\"result\":[1],\"error\":{\"message\":\"m\",\"code\":-32601,\"data\":\"d\"},\"id\":\"q\",\"extra\":1}";
    let response = RpcResponse::from_json_text(body).unwrap();
    assert_eq!(response.jsonrpc(), Some("2.0".to_string()));
    assert_eq!(response.result().to_text(), "[1]");
    let error = response.error().unwrap();
    assert_eq!(error.message(), "m");
    assert_eq!(error.code(), -32601);
    assert_eq!(error.data(), Some("d".to_string()));
    assert!(matches!(response.id(), Some(RpcId::String(s)) if s == "q"));
}

#[test]
fn malformed_body_is_a_parsing_failure() {
    for body in ["", "<html>502 Bad Gateway</html>", "{\"result\": tru", "{\"result\":null}x"] {
        match RpcResponse::from_json_text(body) {
            Err(Error::ParsingFailure(detail)) => {
                assert_eq!(detail, "Could not parse RpcResponse from json -> the body is not JSON")
            }
            other => panic!("{other:?}"),
        }
    }
}

#[test]
fn body_of_another_shape_is_a_parsing_failure() {
    for body in [
        "null",
        "[]",
        "7",
        "{}",
        "{\"error\":null,\"id\":1}",
        "{\"result\":1,\"jsonrpc\":2}",
        "{\"result\":1,\"id\":true}",
        "{\"result\":1,\"id\":-1}",
        "{\"result\":1,\"id\":1.5}",
        "{\"result\":1,\"error\":\"boom\"}",
        "{\"result\":1,\"error\":{}}",
        "{\"result\":1,\"error\":{\"message\":\"m\"}}",
        "{\"result\":1,\"error\":{\"code\":1}}",
        "{\"result\":1,\"error\":{\"message\":1,\"code\":1}}",
        "{\"result\":1,\"error\":{\"message\":\"m\",\"code\":\"1\"}}",
        "{\"result\":1,\"error\":{\"message\":\"m\",\"code\":1.5}}",
        "{\"result\":1,\"error\":{\"message\":\"m\",\"code\":1,\"data\":1}}",
    ] {
        match RpcResponse::from_json_text(body) {
            Err(Error::ParsingFailure(detail)) => assert_eq!(
                detail,
                "Could not parse RpcResponse from json -> the body does not have the shape of a response",
                "{body}"
            ),
            other => panic!("{body}: {other:?}"),
        }
    }
}

#[test]
fn from_json_reads_a_document_built_by_hand() {
    let doc = Json::Object(vec![
        ("result".to_string(), Json::Bool(true)),
        ("error".to_string(), Json::Null),
        ("id".to_string(), number("340282366920938463463374607431768211455")),
    ]);
    let response = RpcResponse::from_json(&doc).unwrap();
    assert!(response.is_success());
    assert!(matches!(response.id(), Some(RpcId::Number(u128::MAX))));
    let too_large = Json::Object(vec![
        ("result".to_string(), Json::Bool(true)),
        ("id".to_string(), number("340282366920938463463374607431768211456")),
    ]);
    assert!(matches!(RpcResponse::from_json(&too_large), Err(Error::ParsingFailure(_))));
}

#[test]
fn response_built_from_parts_answers_like_one_that_was_read() {
    let error = RpcError::new("Not authenticated".to_string(), 1, None);
    let response = RpcResponse::new(None, Json::Bool(true), Some(error), Some(RpcId::Number(4)));
    assert!(!response.is_success());
    assert!(matches!(
        response.classify(),
        RpcOutcome::ProtocolError { message, code: 1 } if message == "Not authenticated"
    ));
    let response = RpcResponse::new(Some("2.0".into()), Json::Null, None, None);
    assert!(response.is_success());
    assert!(response.id().is_none());
}

#[test]
fn id_of_any_size_is_written_in_full() {
    let request = RpcRequest::new(JsonRpcVersion::V1, "m", Json::Null, RpcId::Number(u128::MAX));
    assert_eq!(
        request.to_json_text(),
        "{\"method\":\"m\",\"params\":null,\"id\":340282366920938463463374607431768211455}"
    );
    let response = RpcResponse::from_json_text(
        "{\"result\":null,\"id\":340282366920938463463374607431768211455}",
    )
    .unwrap();
    assert!(matches!(response.id(), Some(RpcId::Number(u128::MAX))));
}

#[test]
fn clone_copies_requests_and_responses() {
    let request = RpcRequest::new(
        JsonRpcVersion::V2,
        "core.set_config",
        Json::Array(vec![number("1")]),
        RpcId::String("a".into()),
    );
    let copy = request.clone();
    drop(request);
    assert_eq!(
        copy.to_json_text(),
        "{\"jsonrpc\":\"2.0\",\"method\":\"core.set_config\",\"params\":[1],\"id\":\"a\"}"
    );
    let response = RpcResponse::from_json_text(
        "{\"jsonrpc\":\"2.0\",\"result\":[1],\"error\":{\"message\":\"m\",\"code\":3},\"id\":9}",
    )
    .unwrap();
    let copy = response.clone();
    drop(response);
    assert_eq!(copy.jsonrpc(), Some("2.0".to_string()));
    assert_eq!(copy.result().to_text(), "[1]");
    assert_eq!(copy.error().map(|e| e.code()), Some(3));
    assert!(matches!(copy.id(), Some(RpcId::Number(9))));
}
