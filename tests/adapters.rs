use agent_orchestrator::acp::{
    classify, handle_notification, response_outcome, send_message_request, timeout_error, AcpMessage, ProcessState,
    METHOD_INITIALIZE, NOTIF_STATUS,
};
use agent_orchestrator::claude_sdk;
use agent_orchestrator::codex::{self, CodexMessage};
use agent_orchestrator::opencode::{self, SseDecoder};
use agent_orchestrator::ws_protocol::event_to_server_message;
use agent_orchestrator::{
    CodexModelOptions, FileSystemCapabilities, JsonRpcNotification, JsonRpcRequest, JsonRpcResponse, JsonValue,
    OpenCodeModelOptions, OrchestratorError, OrchestratorEvent, PendingTable, ReasoningEffort, ServerMessage,
    SessionId,
};

fn s(t: &str) -> JsonValue {
    JsonValue::Str(t.to_string())
}

fn obj(members: Vec<(&str, JsonValue)>) -> JsonValue {
    JsonValue::Object(members.into_iter().map(|(k, v)| (k.to_string(), v)).collect())
}

fn sid() -> SessionId {
    SessionId::from_u128(0x1234)
}

#[test]
fn test_serialize_request() {
    let request = JsonRpcRequest::new(1, METHOD_INITIALIZE, Some(obj(vec![("client", s("test"))])));

    let serialized = request.to_json();

    assert_eq!(serialized.get("jsonrpc").and_then(|v| v.as_str()).map(|t| t.as_str()), Some("2.0"));
    assert!(matches!(serialized.get("id"), Some(JsonValue::Integer(1))));
    assert_eq!(serialized.get("method").and_then(|v| v.as_str()).map(|t| t.as_str()), Some(METHOD_INITIALIZE));
    let params = serialized.get("params").expect("params are written");
    assert_eq!(params.get("client").and_then(|v| v.as_str()).map(|t| t.as_str()), Some("test"));
}

#[test]
fn test_deserialize_notification() {
    let raw = obj(vec![
        ("jsonrpc", s("2.0")),
        ("method", s(NOTIF_STATUS)),
        ("params", obj(vec![("status", s("running"))])),
    ]);

    let notification = JsonRpcNotification::from_json(&raw).expect("notification should deserialize");

    assert_eq!(notification.jsonrpc, "2.0");
    assert_eq!(notification.method, NOTIF_STATUS);
    assert_eq!(
        notification
            .params
            .as_ref()
            .and_then(|p| p.get("status"))
            .and_then(|v| v.as_str())
            .map(|t| t.as_str()),
        Some("running")
    );
}

#[test]
fn replies_reach_their_own_requests_in_reverse_order() {
    let mut table: PendingTable<&str> = PendingTable::new();
    let a = table.allocate();
    let b = table.allocate();
    assert_eq!((a, b), (1, 2));
    table.register(a, "first");
    table.register(b, "second");
    assert_eq!(table.resolve(b), Some("second"));
    assert_eq!(table.resolve(a), Some("first"));
    assert_eq!(table.resolve(a), None);
}

#[test]
fn timed_out_request_leaves_no_entry() {
    let mut table: PendingTable<u8> = PendingTable::new();
    let id = table.allocate();
    table.register(id, 9);
    assert_eq!(table.resolve(id), Some(9));
    match timeout_error(id) {
        OrchestratorError::Timeout(msg) => assert_eq!(msg, "ACP request timed out waiting for response: id=1"),
        other => panic!("unexpected {other:?}"),
    }
    assert_eq!(table.resolve(id), None);
    assert_eq!(table.allocate(), 2);
}

#[test]
fn responses_and_notifications_are_told_apart() {
    let reply = obj(vec![
        ("jsonrpc", s("2.0")),
        ("id", JsonValue::Integer(7)),
        ("error", obj(vec![("code", JsonValue::Integer(-32601)), ("message", s("no such method"))])),
    ]);
    match classify(&Some(reply)) {
        AcpMessage::Response(r) => {
            assert_eq!(r.id, 7);
            match response_outcome(r.id, &r) {
                Err(OrchestratorError::Executor(m)) => {
                    assert_eq!(m, "ACP request failed: id=7, code=-32601, message=no such method")
                }
                other => panic!("unexpected {other:?}"),
            }
        }
        other => panic!("unexpected {other:?}"),
    }
    let ok = JsonRpcResponse::from_json(&obj(vec![("jsonrpc", s("2.0")), ("id", JsonValue::Integer(3)), ("result", JsonValue::Null)]))
        .expect("a reply");
    assert!(ok.result.is_none());
    assert!(response_outcome(3, &ok).is_ok());
    assert!(matches!(classify(&Some(obj(vec![("jsonrpc", s("2.0")), ("method", s("x"))]))), AcpMessage::Notification(_)));
    assert!(matches!(classify(&Some(obj(vec![("id", JsonValue::Integer(-1))]))), AcpMessage::Unrecognized));
    assert!(matches!(classify(&None), AcpMessage::Unrecognized));
}

#[test]
fn acp_notifications_become_events() {
    let n = JsonRpcNotification {
        jsonrpc: "2.0".to_string(),
        method: "acp/toolCall".to_string(),
        params: Some(obj(vec![("toolName", s("grep")), ("args", obj(vec![("q", s("x"))]))])),
    };
    match handle_notification(sid(), &n) {
        Some(OrchestratorEvent::ToolCall { tool_name, args, .. }) => {
            assert_eq!(tool_name, "grep");
            assert!(args.get("q").is_some());
        }
        other => panic!("unexpected {other:?}"),
    }
    let n = JsonRpcNotification { jsonrpc: "2.0".to_string(), method: "acp/toolCall".to_string(), params: None };
    match handle_notification(sid(), &n) {
        Some(OrchestratorEvent::ToolCall { tool_name, args, .. }) => {
            assert_eq!(tool_name, "unknown");
            assert!(matches!(args, JsonValue::Object(ref m) if m.is_empty()));
        }
        other => panic!("unexpected {other:?}"),
    }
    let n = JsonRpcNotification {
        jsonrpc: "2.0".to_string(),
        method: "acp/contentDelta".to_string(),
        params: Some(obj(vec![("content", s("hello"))])),
    };
    assert!(matches!(handle_notification(sid(), &n), Some(OrchestratorEvent::ContentDelta { ref content, .. }) if content == "hello"));
    let n = JsonRpcNotification { jsonrpc: "2.0".to_string(), method: NOTIF_STATUS.to_string(), params: None };
    assert!(handle_notification(sid(), &n).is_none());
}

#[test]
fn acp_exit_is_described() {
    let state = ProcessState::Exited { code: Some(2), signal: None, display: String::new() };
    match agent_orchestrator::acp::on_output_end(sid(), None, &state) {
        OrchestratorEvent::SessionError { error, .. } => {
            assert_eq!(error, "ACP process terminated: process exited with exit code 2")
        }
        other => panic!("unexpected {other:?}"),
    }
    let state = ProcessState::Exited { code: None, signal: Some(9), display: String::new() };
    assert_eq!(agent_orchestrator::acp::process_exit_info(&state), "process exited with signal 9");
    let req = send_message_request(4, "hi");
    assert_eq!(req.method, "acp/sendMessage");
    assert_eq!(req.params.as_ref().and_then(|p| p.get("message")).and_then(|v| v.as_str()).map(|t| t.as_str()), Some("hi"));
}

#[test]
fn prompts_go_out_as_raw_text() {
    assert_eq!(codex::prompt_line("fix the bug"), "fix the bug\n");
}

#[test]
fn tool_call_item_gives_one_tool_call() {
    let line = r#"{"method":"item/started","params":{"item":{"type":"tool_call","tool_name":"shell","arguments":{"cmd":"ls"}}}}"#;
    let parsed = obj(vec![
        ("method", s("item/started")),
        (
            "params",
            obj(vec![(
                "item",
                obj(vec![("type", s("tool_call")), ("tool_name", s("shell")), ("arguments", obj(vec![("cmd", s("ls"))]))]),
            )]),
        ),
    ]);
    let events = codex::decode_line(sid(), line, Some(parsed));
    assert_eq!(events.len(), 1);
    match &events[0] {
        OrchestratorEvent::ToolCall { session_id, tool_name, args } => {
            assert_eq!(*session_id, sid());
            assert_eq!(tool_name, "shell");
            assert_eq!(args.get("cmd").and_then(|v| v.as_str()).map(|t| t.as_str()), Some("ls"));
        }
        other => panic!("unexpected {other:?}"),
    }
}

#[test]
fn notification_lines_map_to_events() {
    let plan = obj(vec![("method", s("turn/plan/updated")), ("params", obj(vec![("explanation", s("step 1"))]))]);
    let m = CodexMessage::from_json(&plan).expect("a message");
    let events = codex::handle_jsonrpc_message(sid(), &m);
    assert!(matches!(&events[..], [OrchestratorEvent::ContentDelta { content, .. }] if content == "[Plan] step 1\n"));

    let diff = obj(vec![("method", s("turn/diff/updated")), ("params", obj(vec![("diff", s("+a"))]))]);
    let events = codex::handle_jsonrpc_message(sid(), &CodexMessage::from_json(&diff).expect("a message"));
    match &events[..] {
        [OrchestratorEvent::FileChange { path, action, content, diff, .. }] => {
            assert_eq!(path, "multiple");
            assert_eq!(action, "edit");
            assert!(content.is_none());
            assert_eq!(diff.as_deref(), Some("+a"));
        }
        other => panic!("unexpected {other:?}"),
    }

    let change = obj(vec![
        ("method", s("item/completed")),
        ("params", obj(vec![("item", obj(vec![("type", s("file_change")), ("path", s("src/a.rs"))]))])),
    ]);
    let events = codex::handle_jsonrpc_message(sid(), &CodexMessage::from_json(&change).expect("a message"));
    assert!(matches!(&events[..], [OrchestratorEvent::FileChange { path, action, .. }] if path == "src/a.rs" && action == "unknown"));

    let usage = obj(vec![("method", s("thread/tokenUsage/updated")), ("params", obj(vec![("total", JsonValue::Integer(10))]))]);
    let events = codex::handle_jsonrpc_message(sid(), &CodexMessage::from_json(&usage).expect("a message"));
    assert!(matches!(&events[..], [OrchestratorEvent::TokenUsage { usage, .. }] if matches!(usage.get("total"), Some(JsonValue::Integer(10)))));

    let failed = obj(vec![("id", s("1")), ("error", obj(vec![("code", JsonValue::Integer(5)), ("message", s("boom"))]))]);
    let events = codex::handle_jsonrpc_message(sid(), &CodexMessage::from_json(&failed).expect("a message"));
    assert!(matches!(&events[..], [OrchestratorEvent::SessionError { error, .. }] if error == "Codex error (5): boom"));

    let empty_message = obj(vec![
        ("method", s("item/completed")),
        ("params", obj(vec![("item", obj(vec![("type", s("message")), ("content", s(""))]))])),
    ]);
    assert!(codex::handle_jsonrpc_message(sid(), &CodexMessage::from_json(&empty_message).expect("a message")).is_empty());
}

#[test]
fn plain_and_blank_lines() {
    let events = codex::decode_line(sid(), "  compiling...  ", None);
    assert!(matches!(&events[..], [OrchestratorEvent::ContentDelta { content, .. }] if content == "compiling...\n"));
    assert!(codex::decode_line(sid(), "   ", None).is_empty());
    let not_a_message = obj(vec![("id", JsonValue::Integer(3))]);
    let events = codex::decode_line(sid(), "{\"id\":3}", Some(not_a_message));
    assert!(matches!(&events[..], [OrchestratorEvent::ContentDelta { content, .. }] if content == "{\"id\":3}\n"));
    assert!(codex::on_output_end(sid(), true, None).is_none());
    assert!(matches!(codex::on_output_end(sid(), false, None), Some(OrchestratorEvent::SessionError { error, .. }) if error == "Codex process terminated"));
}

#[test]
fn launch_arguments_carry_model_settings() {
    let options = CodexModelOptions { model: Some("o4-mini".to_string()), reasoning_effort: Some(ReasoningEffort::Low) };
    assert_eq!(
        codex::effective_args(&vec![], &options),
        vec!["exec", "--json", "-c", "model=o4-mini", "-c", "reasoning.effort=low"]
    );
    assert_eq!(codex::effective_args(&vec!["run".to_string()], &CodexModelOptions::default()), vec!["run"]);
    assert_eq!(ReasoningEffort::default(), ReasoningEffort::Medium);
    assert_eq!(claude_sdk::effective_args(&vec![]).len(), 8);
    assert_eq!(claude_sdk::effective_args(&vec!["-x".to_string()]), vec!["-x"]);
}

#[test]
fn control_requests_are_answered() {
    let ask = obj(vec![
        ("type", s("control_request")),
        ("request_id", s("r1")),
        ("request", obj(vec![("subtype", s("can_use_tool")), ("input", obj(vec![("path", s("a"))]))])),
    ]);
    let outcome = claude_sdk::decode_line(sid(), "{...}", Some(ask));
    assert!(outcome.events.is_empty());
    let reply = outcome.reply.expect("an answer");
    let response = reply.get("response").expect("response");
    assert_eq!(response.get("subtype").and_then(|v| v.as_str()).map(|t| t.as_str()), Some("success"));
    assert_eq!(response.get("request_id").and_then(|v| v.as_str()).map(|t| t.as_str()), Some("r1"));
    let inner = response.get("response").expect("inner response");
    assert_eq!(inner.get("behavior").and_then(|v| v.as_str()).map(|t| t.as_str()), Some("allow"));
    assert!(inner.get("updatedInput").and_then(|v| v.get("path")).is_some());

    let other = obj(vec![("request_id", s("r2")), ("request", obj(vec![("subtype", s("interrupt"))]))]);
    let reply = claude_sdk::handle_control_request(&other);
    let response = reply.get("response").expect("response");
    assert_eq!(response.get("subtype").and_then(|v| v.as_str()).map(|t| t.as_str()), Some("error"));
    assert_eq!(
        response.get("error").and_then(|v| v.as_str()).map(|t| t.as_str()),
        Some("unsupported control request subtype: interrupt")
    );
}

#[test]
fn stream_events_and_results() {
    let delta = obj(vec![
        ("type", s("stream_event")),
        (
            "event",
            obj(vec![("type", s("content_block_delta")), ("delta", obj(vec![("type", s("text_delta")), ("text", s("Hi"))]))]),
        ),
    ]);
    let outcome = claude_sdk::decode_line(sid(), "x", Some(delta));
    assert!(matches!(&outcome.events[..], [OrchestratorEvent::ContentDelta { content, .. }] if content == "Hi"));
    let tool = obj(vec![
        ("type", s("stream_event")),
        (
            "event",
            obj(vec![("type", s("content_block_start")), ("content_block", obj(vec![("type", s("tool_use")), ("name", s("Read"))]))]),
        ),
    ]);
    let outcome = claude_sdk::decode_line(sid(), "x", Some(tool));
    assert!(matches!(&outcome.events[..], [OrchestratorEvent::ToolCall { tool_name, .. }] if tool_name == "Read"));
    let result = obj(vec![("type", s("result")), ("is_error", JsonValue::Bool(true))]);
    let outcome = claude_sdk::decode_line(sid(), "x", Some(result));
    assert!(matches!(&outcome.events[..], [OrchestratorEvent::SessionError { error, .. }] if error == "agent result reported error"));
    assert!(claude_sdk::on_output_end(sid(), true, Some("eof")).is_none());
    let user = claude_sdk::user_message("do it");
    assert_eq!(user.get("type").and_then(|v| v.as_str()).map(|t| t.as_str()), Some("user"));
}

#[test]
fn sse_data_line_split_across_reads() {
    let mut decoder = SseDecoder::new();
    let first = decoder.push_chunk("data: {\"content\":\"he");
    assert!(first.is_empty());
    let second = decoder.push_chunk("llo\"}\n\n");
    assert_eq!(second.len(), 1);
    assert_eq!(second[0].event_type, "");
    assert_eq!(second[0].data, "{\"content\":\"hello\"}");
}

#[test]
fn sse_records_carry_their_event_name() {
    let mut decoder = SseDecoder::new();
    let records = decoder.push_chunk("event: tool.call\ndata: {}\n\nevent: ping\n\n");
    assert_eq!(records.len(), 1);
    assert_eq!(records[0].event_type, "tool.call");
    assert_eq!(records[0].data, "{}");
}

#[test]
fn sse_events_map_to_orchestrator_events() {
    let payload = obj(vec![
        ("content", s("a")),
        ("parts", JsonValue::Array(vec![obj(vec![("type", s("text")), ("text", s("b"))]), obj(vec![("type", s("image"))])])),
    ]);
    let events = opencode::handle_sse_event(sid(), "message.received", &payload);
    assert_eq!(events.len(), 2);
    let err = opencode::handle_sse_event(sid(), "error", &obj(vec![]));
    assert!(matches!(&err[..], [OrchestratorEvent::SessionError { error, .. }] if error == "Unknown error"));
    assert!(opencode::handle_sse_event(sid(), "heartbeat", &obj(vec![])).is_empty());
}

#[test]
fn http_requests_are_built() {
    let base = opencode::default_base_url();
    assert_eq!(base, "http://127.0.0.1:4096");
    assert_eq!(opencode::prompt_url(&base, "s1"), "http://127.0.0.1:4096/session/s1/prompt");
    assert_eq!(opencode::event_url(&base), "http://127.0.0.1:4096/event");
    let body = opencode::create_session_body(&OpenCodeModelOptions { model: Some("m".to_string()), provider: None });
    assert!(body.get("model").is_some());
    assert!(body.get("provider").is_none());
    let reply = obj(vec![("id", s("remote-7")), ("model", JsonValue::Null)]);
    assert_eq!(opencode::remote_session_id(&reply).as_deref(), Some("remote-7"));
    assert!(opencode::remote_session_id(&obj(vec![("id", JsonValue::Integer(1))])).is_none());
}

#[test]
fn session_errors_are_sent_as_error_messages() {
    let id = SessionId::from_u128(1);
    let msg = event_to_server_message(OrchestratorEvent::SessionError { session_id: id, error: "boom".to_string() });
    match msg {
        ServerMessage::Error { message } => assert_eq!(message, "session 00000000-0000-0000-0000-000000000001: boom"),
        other => panic!("unexpected {other:?}"),
    }
    let msg = event_to_server_message(OrchestratorEvent::SessionClosed { session_id: id });
    assert!(matches!(msg, ServerMessage::SessionClosed { session_id } if session_id == "00000000-0000-0000-0000-000000000001"));
}

#[test]
fn paths_are_checked_against_roots() {
    let fs = FileSystemCapabilities::with_allowed_roots(vec!["/home/user/".to_string()]);
    assert!(fs.is_path_allowed("/home/user"));
    assert!(fs.is_path_allowed("/home/user/project"));
    assert!(!fs.is_path_allowed("/home/username"));
    assert!(!fs.is_path_allowed("/etc"));
    assert!(FileSystemCapabilities::new().is_path_allowed("/etc"));
    assert!(FileSystemCapabilities::with_allowed_roots(vec![]).is_path_allowed("/anything"));
}

#[test]
fn orchestrator_errors_have_messages() {
    assert_eq!(OrchestratorError::AgentNotFound("ghost".to_string()).to_string(), "Agent 未找到: ghost");
    assert_eq!(OrchestratorError::UnsupportedAgentType.to_string(), "不支持的 Agent 类型");
}
