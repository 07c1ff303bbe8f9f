use plugin_ipc::commands::{BatchRequest, BatchResult, CommandError};
use plugin_ipc::ipc::manager::{CallOutcome, Dispatch, IpcConfig, IpcManagerState, ReaderStep};
use plugin_ipc::ipc::request::{CommonRequests, RequestBuilder};
use plugin_ipc::ipc::response::error_codes;
use plugin_ipc::ipc::response::{
    BatchResponse, JsonRpcError, JsonRpcResponse, ResponseResult, ResponseResultExt,
};
use plugin_ipc::ipc::{IpcError, IpcManager};
use serde_json::Value;

fn json(text: &str) -> Value {
    serde_json::from_str(text).unwrap()
}

#[test]
fn test_command_error_from_ipc_error() {
    let error = CommandError::from(IpcError::NotRunning);
    assert_eq!(error.code, "NOT_RUNNING");

    let error = CommandError::from(IpcError::Timeout(30));
    assert_eq!(error.code, "TIMEOUT");
    assert!(error.message.contains("30"));

    let error = CommandError::from(IpcError::RpcError {
        code: -32601,
        message: "Method not found".to_string(),
    });
    assert_eq!(error.code, "RPC_ERROR_-32601");
}

#[test]
fn test_request_builder() {
    let request = RequestBuilder::new("plugin/load")
        .with_param("name", Value::from("test_plugin"))
        .with_param("auto_init", Value::from(true))
        .build(100);

    assert_eq!(request.method, "plugin/load");
    assert_eq!(request.params["name"], "test_plugin");
    assert_eq!(request.params["auto_init"], true);
}

#[test]
fn test_request_builder_with_params() {
    let request = RequestBuilder::new("tts/synthesize")
        .with_params(json(r#"{"text": "Hello", "voice": "default"}"#))
        .build(1);

    assert_eq!(request.params["text"], "Hello");
    assert_eq!(request.params["voice"], "default");
}

#[test]
fn test_common_requests() {
    let ping = CommonRequests::ping().build(1);
    assert_eq!(ping.method, "ping");

    let load = CommonRequests::plugin_load("my_plugin").build(2);
    assert_eq!(load.method, "plugin/load");
    assert_eq!(load.params["name"], "my_plugin");

    let swap = CommonRequests::plugin_swap("old", "new").build(3);
    assert_eq!(swap.params["old"], "old");
    assert_eq!(swap.params["new"], "new");
}

#[test]
fn test_empty_params() {
    let request = RequestBuilder::new("ping").build(1);

    assert!(request.params.is_null());
}

#[test]
fn test_error_response() {
    let error = JsonRpcError::method_not_found("unknown/method");
    let response = JsonRpcResponse::error(Some(1), error);

    assert!(response.is_error());
    assert!(!response.is_success());
    assert!(response.error.is_some());
}

#[test]
fn test_response_serialization() {
    let response = JsonRpcResponse::success(42, json(r#"{"plugins": ["a", "b"]}"#));
    let json = response.to_json().unwrap();

    let parsed: Value = serde_json::from_str(&json).unwrap();
    assert_eq!(parsed["jsonrpc"], "2.0");
    assert_eq!(parsed["id"], 42);
    assert!(parsed["result"]["plugins"].is_array());
}

#[test]
fn test_json_rpc_error() {
    let error = JsonRpcError::method_not_found("test/method");

    assert_eq!(error.code, error_codes::METHOD_NOT_FOUND);
    assert!(error.message.contains("test/method"));
    assert!(error.data.is_some());
    assert!(error.is_standard_error());
}

#[test]
fn test_batch_response() {
    let batch = BatchResponse::new(vec![
        JsonRpcResponse::success(1, Value::from("a")),
        JsonRpcResponse::success(2, Value::from("b")),
        JsonRpcResponse::error(Some(3), JsonRpcError::internal_error("fail")),
    ]);

    assert_eq!(batch.len(), 3);
    assert!(!batch.all_success());
    assert_eq!(batch.errors().len(), 1);
    assert!(batch.get_by_id(2).is_some());
    assert!(batch.get_by_id(99).is_none());
}

#[test]
fn test_ipc_manager_builder() {
    let manager: IpcManager<u8> = IpcManager::new()
        .with_python_path("python3")
        .with_module_path("my.module")
        .with_working_dir("/tmp")
        .with_timeout(30);

    assert_eq!(manager.python_path(), "python3");
    assert_eq!(manager.module_name(), "my.module");
    assert_eq!(manager.working_dir(), Some("/tmp"));
    assert_eq!(manager.timeout_secs(), 30);
}

#[test]
fn test_initial_state() {
    let manager: IpcManager<u8> = IpcManager::new();

    assert!(!manager.is_running());
    assert!(!manager.is_shutting_down());
    assert_eq!(manager.request_count(), 0);
    assert_eq!(manager.error_count(), 0);
    assert!(manager.pid().is_none());
    assert!(manager.uptime_secs().is_none());
}

#[test]
fn test_request_id_generation() {
    let mut manager: IpcManager<u8> = IpcManager::new();

    let id1 = manager.next_request_id().unwrap();
    let id2 = manager.next_request_id().unwrap();
    let id3 = manager.next_request_id().unwrap();

    assert_eq!(id1, 1);
    assert_eq!(id2, 2);
    assert_eq!(id3, 3);
}

#[test]
fn command_error_of_every_kind() {
    let table: Vec<(IpcError, &str, &str)> = vec![
        (IpcError::SpawnError("no python".to_string()), "SPAWN_ERROR", "no python"),
        (IpcError::NotRunning, "NOT_RUNNING", "Subprocess not running"),
        (IpcError::SendError("x".to_string()), "SEND_ERROR", "x"),
        (IpcError::Timeout(30), "TIMEOUT", "Request timed out after 30 seconds"),
        (IpcError::SubprocessCrashed, "SUBPROCESS_CRASHED", "Subprocess crashed"),
        (IpcError::ResponseMissing(9), "RESPONSE_MISSING", "Response missing for request 9"),
        (IpcError::IoError("pipe".to_string()), "IO_ERROR", "pipe"),
        (IpcError::JsonError("bad".to_string()), "JSON_ERROR", "bad"),
        (IpcError::RespawnFailed(3), "RESPAWN_FAILED", "Respawn failed after 3 attempts"),
        (IpcError::ChannelClosed, "CHANNEL_CLOSED", "Communication channel closed"),
        (IpcError::NotInitialized, "NOT_INITIALIZED", "IPC not initialized"),
        (IpcError::ShuttingDown, "SHUTTING_DOWN", "System is shutting down"),
    ];
    for (error, code, message) in table {
        let e = CommandError::from_ipc_error(error);
        assert_eq!(e.code, code);
        assert_eq!(e.message, message);
        assert!(e.details.is_none());
    }
    let e = CommandError::from(IpcError::RpcError { code: -32001, message: "wait".to_string() });
    assert_eq!(e.code, "RPC_ERROR_-32001");
    assert_eq!(e.message, "wait");
    assert_eq!(e.details, Some(json(r#"{"rpc_code":-32001}"#)));
    assert_eq!(e.describe(), "[RPC_ERROR_-32001] wait");
    let e = CommandError::from_ipc_error(IpcError::RpcError { code: 7, message: String::new() });
    assert_eq!(e.code, "RPC_ERROR_7");
}

#[test]
fn batch_outcomes_are_independent() {
    let ok = BatchResult::from_outcome(Ok(Value::from("ok")));
    assert!(ok.success);
    assert_eq!(ok.result, Some(Value::from("ok")));
    assert!(ok.error.is_none());
    let bad = BatchResult::from_outcome(Err(IpcError::Timeout(5)));
    assert!(!bad.success);
    assert!(bad.result.is_none());
    assert_eq!(bad.error.unwrap().code, "TIMEOUT");
    let with = BatchRequest { method: "m".to_string(), params: Some(Value::from(1)) };
    assert_eq!(with.into_params(), Value::from(1));
    let without = BatchRequest { method: "m".to_string(), params: None };
    assert_eq!(without.into_params(), json("{}"));
}

#[test]
fn method_not_found_names_the_method() {
    let error = JsonRpcError::method_not_found("a/b");
    assert_eq!(error.code, -32601);
    assert_eq!(error.message, "Method not found: a/b");
    assert_eq!(error.data, Some(json(r#"{"method":"a/b"}"#)));
    assert_eq!(
        error.to_json().unwrap(),
        r#"{"code":-32601,"message":"Method not found: a/b","data":{"method":"a/b"}}"#
    );
}

#[test]
fn response_line_is_byte_exact() {
    let ok = JsonRpcResponse::success(1, json(r#"{"a":[1,2]}"#));
    assert_eq!(ok.to_json().unwrap(), r#"{"jsonrpc":"2.0","id":1,"result":{"a":[1,2]}}"#);
    let bad = JsonRpcResponse::error(None, JsonRpcError::new(-32700, "Parse \"error\""));
    assert_eq!(
        bad.to_json().unwrap(),
        r#"{"jsonrpc":"2.0","id":null,"error":{"code":-32700,"message":"Parse \"error\""}}"#
    );
    let line = ok.to_json().unwrap();
    let back = JsonRpcResponse::from_json(&line).unwrap();
    assert_eq!(back.id, Some(1));
    assert_eq!(back.result, Some(json(r#"{"a":[1,2]}"#)));
    let line = bad.to_json().unwrap();
    let back = JsonRpcResponse::from_json(&line).unwrap();
    assert_eq!(back.id, None);
    assert_eq!(back.error, Some(JsonRpcError::new(-32700, "Parse \"error\"")));
}

#[test]
fn builder_replaces_and_merges_parameters() {
    let request = RequestBuilder::new("m")
        .with_param("a", Value::from(1))
        .with_param("b", Value::from(2))
        .with_param("a", Value::from(3))
        .with_params(json(r#"{"b": 4, "c": 5}"#))
        .with_params(Value::from("not an object"))
        .with_params(json("[1]"))
        .build(9);
    assert_eq!(request.id, 9);
    assert_eq!(request.jsonrpc, "2.0");
    assert_eq!(request.params, json(r#"{"a":3,"b":4,"c":5}"#));
    let line = RequestBuilder::new("ping").build_json(5).unwrap();
    assert_eq!(line, r#"{"jsonrpc":"2.0","id":5,"method":"ping"}"#);
    let line = RequestBuilder::new("x").with_param("k", Value::Null).build_json(6).unwrap();
    assert_eq!(line, r#"{"jsonrpc":"2.0","id":6,"method":"x","params":{"k":null}}"#);
}

#[test]
fn common_requests_have_their_methods() {
    assert_eq!(CommonRequests::status().build(1).method, "status");
    assert_eq!(CommonRequests::shutdown().build(1).method, "shutdown");
    assert_eq!(CommonRequests::plugin_list().build(1).method, "plugin/list");
    let unload = CommonRequests::plugin_unload("p").build(1);
    assert_eq!(unload.method, "plugin/unload");
    assert_eq!(unload.params, json(r#"{"name":"p"}"#));
    let health = CommonRequests::plugin_health(Some("p".to_string())).build(1);
    assert_eq!(health.method, "plugin/health");
    assert_eq!(health.params, json(r#"{"name":"p"}"#));
    let health = CommonRequests::plugin_health(None).build(1);
    assert!(health.params.is_null());
    let swap = CommonRequests::plugin_swap("a", "b").build(1);
    assert_eq!(swap.method, "plugin/swap");
    assert_eq!(swap.params, json(r#"{"new":"b","old":"a"}"#));
}

#[test]
fn batch_decodes_an_array_of_responses() {
    let batch = BatchResponse::from_json(
        r#"[{"jsonrpc":"2.0","id":1,"result":"a"},{"jsonrpc":"2.0","id":2,"error":{"code":-32603,"message":"x"}},{"jsonrpc":"2.0","id":1,"result":"again"}]"#,
    )
    .unwrap();
    assert_eq!(batch.len(), 3);
    assert!(!batch.is_empty());
    assert!(!batch.all_success());
    assert_eq!(batch.get_by_id(1).unwrap().result, Some(Value::from("a")));
    let errors = batch.errors();
    assert_eq!(errors.len(), 1);
    assert_eq!(errors[0].code, -32603);
    let empty = BatchResponse::from_json("[]").unwrap();
    assert!(empty.is_empty());
    assert!(empty.all_success());
    match BatchResponse::from_json(r#"{"jsonrpc":"2.0","id":1}"#) {
        Err(IpcError::JsonError(m)) => assert_eq!(m, "expected an array of responses"),
        other => panic!("unexpected: {:?}", other),
    }
    match BatchResponse::from_json(r#"[{"jsonrpc":"2.0","id":1},{"id":2}]"#) {
        Err(IpcError::JsonError(m)) => assert_eq!(m, "missing or invalid `jsonrpc`"),
        other => panic!("unexpected: {:?}", other),
    }
    assert!(matches!(BatchResponse::from_json("["), Err(IpcError::JsonError(_))));
}

#[test]
fn empty_results() {
    let empties: Vec<ResponseResult> = vec![
        Ok(Value::Null),
        Ok(json("{}")),
        Ok(json("[]")),
        Ok(Value::from("")),
    ];
    for r in empties {
        assert!(r.is_empty());
    }
    let full: Vec<ResponseResult> = vec![
        Ok(Value::from(0)),
        Ok(Value::from(false)),
        Ok(json(r#"{"a":null}"#)),
        Ok(json("[null]")),
        Ok(Value::from(" ")),
        Err(JsonRpcError::new(1, "")),
    ];
    for r in full {
        assert!(!r.is_empty());
    }
}

#[test]
fn builder_call_skips_one_id() {
    let mut m: IpcManagerState<&'static str> = IpcManagerState::new(IpcConfig::new());
    assert!(m.begin_start().is_ok());
    assert!(m.complete_start(1));
    let ticket = m
        .begin_builder_call(CommonRequests::plugin_load("tts"), "caller")
        .unwrap();
    assert_eq!(ticket.id, 2);
    assert_eq!(
        ticket.line,
        r#"{"jsonrpc":"2.0","id":2,"method":"plugin/load","params":{"name":"tts"}}"#
    );
    let next = m.begin_call("ping", Value::Null, "other").unwrap();
    assert_eq!(next.id, 3);
}

#[test]
fn simple_manager_serves_requests_while_running() {
    let mut m: IpcManager<&'static str> = IpcManager::default().with_timeout(2);
    assert!(matches!(m.begin_request("ping", Value::Null, "x"), Err(IpcError::NotRunning)));
    assert!(matches!(m.begin_notification("n", Value::Null), Err(IpcError::NotRunning)));
    let plan = m.begin_spawn().unwrap().unwrap();
    assert_eq!(plan.program, "python");
    assert_eq!(plan.args, vec!["-m", "plugins._host"]);
    assert_eq!(plan.working_dir, None);
    assert_eq!(plan.env, ("PYTHONUNBUFFERED".to_string(), "1".to_string()));
    m.complete_spawn(55);
    assert!(m.is_running());
    assert_eq!(m.pid(), Some(55));
    assert!(m.uptime_secs().is_some());
    assert!(m.begin_spawn().unwrap().is_none());

    let a = m.begin_request("echo", Value::from(1), "a").unwrap();
    let b = m.begin_request("echo", IpcManager::<&'static str>::no_params(), "b").unwrap();
    assert_eq!((a.id, b.id), (1, 2));
    assert_eq!(b.line, r#"{"jsonrpc":"2.0","id":2,"method":"echo","params":{}}"#);
    assert!(m.sent(a.id, true).is_ok());
    assert!(m.sent(b.id, true).is_ok());
    assert_eq!(
        m.begin_notification("log/event", json(r#"{"type":"t"}"#)).unwrap(),
        r#"{"jsonrpc":"2.0","method":"log/event","params":{"type":"t"}}"#
    );
    match m.on_line(r#"{"jsonrpc":"2.0","id":2,"result":"two"}"#) {
        ReaderStep::Dispatched(Dispatch::Deliver { sink, response }) => {
            assert_eq!(sink, "b");
            assert_eq!(m.settle(2, CallOutcome::Response(response)).unwrap(), Value::from("two"));
        }
        other => panic!("unexpected: {:?}", other),
    }
    assert!(matches!(m.on_line("  "), ReaderStep::Skip));
    assert!(matches!(m.on_line("x"), ReaderStep::Malformed(_)));
    assert!(matches!(m.settle(1, CallOutcome::TimedOut), Err(IpcError::Timeout(2))));
    let stats = m.get_stats();
    assert!(stats.is_running);
    assert_eq!(stats.pid, Some(55));
    assert_eq!(stats.request_count, 2);
    assert_eq!(stats.error_count, 1);
    assert_eq!(stats.pending_count, 0);
    assert_eq!(stats.respawn_attempts, 0);

    let c = m.begin_request("echo", Value::Null, "c").unwrap();
    assert!(matches!(m.sent(c.id, false), Err(IpcError::ChannelClosed)));
    let d = m.begin_request("echo", Value::Null, "d").unwrap();
    assert_eq!(d.id, 4);
    assert_eq!(m.on_eof(), vec![(4, "d")]);
    assert!(!m.is_running());
    assert!(matches!(m.begin_request("ping", Value::Null, "x"), Err(IpcError::NotRunning)));
    assert_eq!(m.begin_teardown(), Some(55));
    assert!(m.is_shutting_down());
    assert_eq!(m.begin_teardown(), None);
    assert!(matches!(m.begin_spawn(), Err(IpcError::ShuttingDown)));
}

#[test]
fn simple_manager_refuses_requests_during_teardown() {
    let mut m: IpcManager<u8> = IpcManager::new();
    m.complete_spawn(9);
    assert_eq!(m.begin_teardown(), Some(9));
    assert!(m.is_running());
    assert!(matches!(m.begin_request("ping", Value::Null, 0), Err(IpcError::ShuttingDown)));
    assert_eq!(m.get_stats().pending_count, 0);
    let stats = m.stats_with(std::time::Duration::from_secs(75));
    assert_eq!(stats.uptime_secs, Some(75));
    assert_eq!(stats.pid, None);
}

#[test]
fn responses_describe_themselves() {
    assert_eq!(JsonRpcResponse::success(1, json(r#"{"a":1}"#)).describe(), r#"Result: {"a":1}"#);
    assert_eq!(
        JsonRpcResponse::error(Some(1), JsonRpcError::new(-32603, "boom")).describe(),
        "Error: [-32603] boom"
    );
    let empty = JsonRpcResponse::from_json(r#"{"jsonrpc":"2.0","id":1}"#).unwrap();
    assert_eq!(empty.describe(), "Empty response");
}

#[test]
fn test_batch_request() {
    let json = r#"{"method": "test", "params": {"key": "value"}}"#;
    let req = BatchRequest::from_json(json).unwrap();

    assert_eq!(req.method, "test");
    assert!(req.params.is_some());
}

#[test]
fn test_batch_result_serialization() {
    let result = BatchResult { success: true, result: Some(Value::from("ok")), error: None };

    let json = result.to_json().unwrap();
    assert!(json.contains("\"success\":true"));
    assert!(json.contains("\"result\":\"ok\""));
}

#[test]
fn batch_calls_and_outcomes_on_the_wire() {
    let req = BatchRequest::from_json(r#"{"method":"m","params":null}"#).unwrap();
    assert_eq!(req.method, "m");
    assert!(req.params.is_none());
    assert!(BatchRequest::from_json(r#"{"method":"m"}"#).unwrap().params.is_none());
    match BatchRequest::from_json(r#"{"params":{}}"#) {
        Err(IpcError::JsonError(m)) => assert_eq!(m, "missing or invalid `method`"),
        other => panic!("unexpected: {:?}", other),
    }
    assert!(matches!(BatchRequest::from_json("nope"), Err(IpcError::JsonError(_))));
    let ok = BatchResult::from_outcome(Ok(json("[1]")));
    assert_eq!(ok.to_json().unwrap(), r#"{"success":true,"result":[1],"error":null}"#);
    let bad = BatchResult::from_outcome(Err(IpcError::RpcError {
        code: -32601,
        message: "Method not found".to_string(),
    }));
    assert_eq!(
        bad.to_json().unwrap(),
        r#"{"success":false,"result":null,"error":{"code":"RPC_ERROR_-32601","message":"Method not found","details":{"rpc_code":-32601}}}"#
    );
    let plain = CommandError::from_ipc_error(IpcError::NotRunning);
    assert_eq!(
        plain.to_json().unwrap(),
        r#"{"code":"NOT_RUNNING","message":"Subprocess not running"}"#
    );
}
