use plugin_ipc::ipc::request::JsonRpcRequest;
use plugin_ipc::ipc::response::error_codes;
use plugin_ipc::ipc::response::{Field, JsonRpcError, JsonRpcResponse, RawEnvelope, RawError};
use plugin_ipc::ipc::IpcError;
use serde_json::Value;

fn json(text: &str) -> Value {
    serde_json::from_str(text).unwrap()
}

#[test]
fn test_error_codes() {
    assert!(error_codes::is_standard_error(-32700));
    assert!(error_codes::is_standard_error(-32600));
    assert!(!error_codes::is_standard_error(-32000));

    assert!(error_codes::is_server_error(-32000));
    assert!(!error_codes::is_server_error(-32700));

    assert_eq!(error_codes::description(-32601), "Method not found");
}

#[test]
fn test_success_response() {
    let response = JsonRpcResponse::success(1, json(r#"{"status": "ready"}"#));

    assert!(response.is_success());
    assert!(!response.is_error());
    assert_eq!(response.id, Some(1));
    assert_eq!(response.result, Some(json(r#"{"status": "ready"}"#)));
    assert!(response.error.is_none());
}

#[test]
fn test_response_into_result() {
    let success = JsonRpcResponse::success(1, Value::from("pong"));
    assert_eq!(success.into_result().unwrap(), Value::from("pong"));

    let error_resp = JsonRpcResponse::error(Some(1), JsonRpcError::new(-32601, "Method not found"));
    let result = error_resp.into_result();
    assert!(result.is_err());
    assert_eq!(result.unwrap_err().code, -32601);
}

#[test]
fn test_response_deserialization() {
    let json = r#"{"jsonrpc":"2.0","id":1,"result":"pong"}"#;
    let response = JsonRpcResponse::from_json(json).unwrap();

    assert!(response.is_success());
    assert_eq!(response.id, Some(1));
    assert_eq!(response.result, Some(Value::from("pong")));
}

#[test]
fn test_extract_result() {
    let response = JsonRpcResponse::success(1, json(r#"{"name": "test", "count": 42}"#));

    let result = response.extract_result().unwrap();
    assert_eq!(result["name"], "test");
    assert_eq!(result["count"], 42);
}

#[test]
fn test_json_rpc_request() {
    let request = JsonRpcRequest::new(1, "test/method", json(r#"{"key": "value"}"#));

    assert_eq!(request.jsonrpc, "2.0");
    assert_eq!(request.id, 1);
    assert_eq!(request.method, "test/method");
    assert_eq!(request.params, json(r#"{"key": "value"}"#));
}

#[test]
fn test_request_serialization() {
    let request = JsonRpcRequest::new(42, "ping", json("{}"));
    let json = request.to_json().unwrap();

    let parsed: Value = serde_json::from_str(&json).unwrap();
    assert_eq!(parsed["jsonrpc"], "2.0");
    assert_eq!(parsed["id"], 42);
    assert_eq!(parsed["method"], "ping");
}

#[test]
fn test_notification() {
    let notification = JsonRpcRequest::notification("log/event", json(r#"{"type": "test"}"#));
    let json = notification.to_json().unwrap();

    let parsed: Value = serde_json::from_str(&json).unwrap();
    assert_eq!(parsed["jsonrpc"], "2.0");
    assert_eq!(parsed["method"], "log/event");
    assert!(parsed.get("id").is_none());
}

#[test]
fn request_line_is_byte_exact() {
    let request = JsonRpcRequest::new(18446744073709551615, "a\"b\n", json(r#"[1,"x\ny",null]"#));
    assert_eq!(
        request.to_json().unwrap(),
        r#"{"jsonrpc":"2.0","id":18446744073709551615,"method":"a\"b\n","params":[1,"x\ny",null]}"#
    );
    let request = JsonRpcRequest::new(0, "m", Value::Null);
    assert_eq!(request.to_json().unwrap(), r#"{"jsonrpc":"2.0","id":0,"method":"m"}"#);
    let note = JsonRpcRequest::notification("n", Value::Null);
    assert_eq!(note.to_json().unwrap(), r#"{"jsonrpc":"2.0","method":"n"}"#);
    let note = JsonRpcRequest::notification("n", Value::from(false));
    assert_eq!(note.to_json().unwrap(), r#"{"jsonrpc":"2.0","method":"n","params":false}"#);
}

#[test]
fn request_round_trips_through_the_wire_form() {
    let params = json(r#"{"text":"Hello\nWorld","n":[1,2,{"deep":true}]}"#);
    let request = JsonRpcRequest::new(77, "tts/synthesize", params.clone());
    let line = request.to_json().unwrap();
    assert!(!line.contains('\n'));
    assert!(line.ends_with('}'));
    let parsed: Value = serde_json::from_str(&line).unwrap();
    assert_eq!(parsed["jsonrpc"], "2.0");
    assert_eq!(parsed["id"], 77);
    assert_eq!(parsed["method"], "tts/synthesize");
    assert_eq!(parsed["params"], params);
    let bare = JsonRpcRequest::new(78, "ping", Value::Null).to_json().unwrap();
    let parsed: Value = serde_json::from_str(&bare).unwrap();
    assert!(parsed.get("params").is_none());
}

#[test]
fn decode_reads_the_error_object() {
    let line = r#"{"jsonrpc":"2.0","id":7,"error":{"code":-32001,"message":"not ready","data":{"plugin":"tts"}}}"#;
    let response = JsonRpcResponse::from_json(line).unwrap();
    assert!(response.is_error());
    assert!(!response.is_success());
    assert_eq!(response.jsonrpc, "2.0");
    assert_eq!(response.id, Some(7));
    assert!(response.get_result().is_none());
    let error = response.get_error().unwrap();
    assert_eq!(error.code, -32001);
    assert_eq!(error.message, "not ready");
    assert_eq!(error.data, Some(json(r#"{"plugin":"tts"}"#)));
    assert!(error.is_recoverable());
    assert!(error.is_server_error());
    assert!(!error.is_standard_error());
    assert_eq!(error.code_description(), "Plugin not ready");
    assert_eq!(error.describe(), "[-32001] not ready");
}

#[test]
fn decode_accepts_absent_and_null_members() {
    let response = JsonRpcResponse::from_json(r#"{"jsonrpc":"2.0","id":null,"result":null}"#).unwrap();
    assert_eq!(response.id, None);
    assert!(response.result.is_none());
    assert!(response.error.is_none());
    assert!(!response.is_success());
    assert_eq!(response.into_result().unwrap(), Value::Null);
    let response =
        JsonRpcResponse::from_json(r#"{"jsonrpc":"2.0","id":3,"result":[],"error":null,"x":1}"#)
            .unwrap();
    assert_eq!(response.id, Some(3));
    assert_eq!(response.result, Some(json("[]")));
    assert!(response.error.is_none());
}

fn rejection(line: &str) -> String {
    match JsonRpcResponse::from_json(line) {
        Err(IpcError::JsonError(text)) => text,
        other => panic!("unexpected: {:?}", other),
    }
}

#[test]
fn decode_rejects_malformed_envelopes() {
    assert_eq!(rejection(r#"{"id":1,"result":1}"#), "missing or invalid `jsonrpc`");
    assert_eq!(rejection(r#"{"jsonrpc":2,"id":1,"result":1}"#), "missing or invalid `jsonrpc`");
    assert_eq!(rejection(r#"[1,2]"#), "missing or invalid `jsonrpc`");
    assert_eq!(rejection(r#"{"jsonrpc":"2.0","id":-1,"result":1}"#), "invalid `id`");
    assert_eq!(rejection(r#"{"jsonrpc":"2.0","id":"1","result":1}"#), "invalid `id`");
    assert_eq!(rejection(r#"{"jsonrpc":"2.0","id":1,"error":"x"}"#), "invalid `error`");
    assert_eq!(
        rejection(r#"{"jsonrpc":"2.0","id":1,"error":{"code":1}}"#),
        "invalid `error`"
    );
    assert_eq!(
        rejection(r#"{"jsonrpc":"2.0","id":1,"error":{"code":2147483648,"message":"m"}}"#),
        "invalid `error`"
    );
    assert_eq!(
        rejection(r#"{"jsonrpc":"2.0","id":1,"result":1,"error":{"code":1,"message":"m"}}"#),
        "response carries both `result` and `error`"
    );
    assert!(!rejection("{").is_empty());
    assert!(!rejection("").is_empty());
}

#[test]
fn envelope_decides_on_plain_values() {
    let ok = RawEnvelope {
        jsonrpc: Some("2.0".to_string()),
        id: Field::Valid(5),
        result: None,
        error: Some(RawError {
            code: Some(-2147483648),
            message: Some("m".to_string()),
            data: None,
        }),
    };
    let response = JsonRpcResponse::from_envelope(ok).unwrap();
    assert_eq!(response.id, Some(5));
    assert_eq!(response.error.unwrap().code, i32::MIN);
    let bad = RawEnvelope {
        jsonrpc: Some("2.0".to_string()),
        id: Field::Invalid,
        result: None,
        error: None,
    };
    assert!(matches!(JsonRpcResponse::from_envelope(bad), Err(IpcError::JsonError(_))));
    let absent = RawEnvelope {
        jsonrpc: Some("1.0".to_string()),
        id: Field::Absent,
        result: Some(Value::from(1)),
        error: None,
    };
    let response = JsonRpcResponse::from_envelope(absent).unwrap();
    assert_eq!(response.jsonrpc, "1.0");
    assert_eq!(response.id, None);
}

#[test]
fn error_constructors_set_their_codes() {
    assert_eq!(JsonRpcError::parse_error("p").code, -32700);
    assert_eq!(JsonRpcError::invalid_request("p").code, -32600);
    assert_eq!(JsonRpcError::invalid_params("p").code, -32602);
    assert_eq!(JsonRpcError::internal_error("p").code, -32603);
    let e = JsonRpcError::with_data(-32050, "full", Value::from(3));
    assert_eq!(e.data, Some(Value::from(3)));
    assert!(e.is_recoverable());
    match e.into_ipc_error() {
        IpcError::RpcError { code, message } => {
            assert_eq!(code, -32050);
            assert_eq!(message, "full");
        }
        other => panic!("unexpected: {:?}", other),
    }
    let r = JsonRpcResponse::error_from_code(None, -32603, "boom");
    assert_eq!(r.id, None);
    assert_eq!(r.error.unwrap().message, "boom");
}

#[test]
fn every_known_code_has_its_description() {
    let table = [
        (-32700, "Parse error"),
        (-32600, "Invalid Request"),
        (-32601, "Method not found"),
        (-32602, "Invalid params"),
        (-32603, "Internal error"),
        (-32000, "Plugin not found"),
        (-32001, "Plugin not ready"),
        (-32002, "Plugin load failed"),
        (-32003, "Plugin initialization failed"),
        (-32004, "Plugin shutdown failed"),
        (-32005, "Plugin already loaded"),
        (-32010, "Contract mismatch"),
        (-32011, "Contract not found"),
        (-32012, "Invalid manifest"),
        (-32013, "Manifest missing"),
        (-32020, "Hot-swap failed"),
        (-32021, "Hot-swap rollback failed"),
        (-32030, "Discovery failed"),
        (-32040, "Health check timeout"),
        (-32050, "Resource exhausted"),
        (-32051, "Dependency missing"),
        (-32052, "Model not found"),
        (-32099, "Unknown error"),
        (0, "Unknown error"),
        (1, "Unknown error"),
    ];
    for (code, text) in table {
        assert_eq!(error_codes::description(code), text);
    }
    assert!(error_codes::is_server_error(-32099));
    assert!(!error_codes::is_server_error(-32100));
    assert!(!error_codes::is_server_error(-31999));
    assert!(!error_codes::is_standard_error(-32701));
    assert!(!error_codes::is_standard_error(-32599));
    for code in [-32001, -32040, -32050] {
        assert!(error_codes::is_recoverable(code));
    }
    assert!(!error_codes::is_recoverable(-32000));
}

#[test]
fn errors_describe_themselves() {
    assert_eq!(IpcError::NotRunning.describe(), "Subprocess not running");
    assert_eq!(IpcError::Timeout(30).describe(), "Request timed out after 30 seconds");
    assert_eq!(IpcError::SubprocessCrashed.describe(), "Subprocess crashed");
    assert_eq!(
        IpcError::RpcError { code: -32601, message: "Method not found".to_string() }.describe(),
        "JSON-RPC error [-32601]: Method not found"
    );
    assert_eq!(
        IpcError::SpawnError("x".to_string()).describe(),
        "Failed to spawn subprocess: x"
    );
    assert_eq!(IpcError::SendError("x".to_string()).describe(), "Failed to send request: x");
    assert_eq!(
        IpcError::ResponseMissing(18446744073709551615).describe(),
        "Response missing for request 18446744073709551615"
    );
    assert_eq!(IpcError::IoError("x".to_string()).describe(), "IO error: x");
    assert_eq!(IpcError::JsonError("x".to_string()).describe(), "JSON serialization error: x");
    assert_eq!(IpcError::RespawnFailed(3).describe(), "Respawn failed after 3 attempts");
    assert_eq!(IpcError::ChannelClosed.describe(), "Channel closed");
    assert_eq!(IpcError::NotInitialized.describe(), "Subprocess not initialized");
    assert_eq!(IpcError::ShuttingDown.describe(), "Shutdown in progress");
    assert_eq!(
        IpcError::RpcError { code: i32::MIN, message: String::new() }.describe(),
        "JSON-RPC error [-2147483648]: "
    );
    assert_eq!(IpcError::Timeout(0).describe(), "Request timed out after 0 seconds");
}

#[test]
fn outside_errors_convert() {
    let e = serde_json::from_str::<Value>("{").unwrap_err();
    let text = e.to_string();
    match IpcError::from(e) {
        IpcError::JsonError(m) => assert_eq!(m, text),
        other => panic!("unexpected: {:?}", other),
    }
    let e = std::io::Error::new(std::io::ErrorKind::BrokenPipe, "pipe is gone");
    match IpcError::from(e) {
        IpcError::IoError(m) => assert_eq!(m, "pipe is gone"),
        other => panic!("unexpected: {:?}", other),
    }
}
