use agent_orchestrator::acp::{classify_line, AcpMessage};
use agent_orchestrator::json::{parse_json, to_json_text};
use agent_orchestrator::opencode::{record_events, SseRecord};
use agent_orchestrator::{claude_sdk, codex, EventBroadcaster, JsonValue, Orchestrator, OrchestratorConfig, OrchestratorEvent, SessionId};

#[test]
fn json_text_is_read_and_written() {
    let v = parse_json(r#" {"a": [1, "x", null, true, 2.5]} "#).expect("valid JSON");
    let items = v.get("a").and_then(|a| a.as_array()).expect("an array");
    assert!(matches!(items[0], JsonValue::Integer(1)));
    assert!(matches!(&items[1], JsonValue::Str(s) if s == "x"));
    assert!(matches!(items[2], JsonValue::Null));
    assert!(matches!(items[3], JsonValue::Bool(true)));
    assert!(matches!(&items[4], JsonValue::Decimal(t) if t == "2.5"));
    assert!(parse_json("not json").is_none());
    let obj = JsonValue::Object(vec![("k".to_string(), JsonValue::Integer(-3))]);
    assert_eq!(to_json_text(&obj), r#"{"k":-3}"#);
}

#[test]
fn output_lines_are_read_as_json() {
    let sid = SessionId::from_u128(5);
    let events = codex::read_output_line(
        sid,
        r#"{"method":"item/completed","params":{"item":{"type":"tool_call","tool_name":"shell","arguments":{"cmd":"ls"}}}}"#,
    );
    assert!(matches!(&events[..], [OrchestratorEvent::ToolCall { tool_name, .. }] if tool_name == "shell"));
    let events = codex::read_output_line(sid, "warming up");
    assert!(matches!(&events[..], [OrchestratorEvent::ContentDelta { content, .. }] if content == "warming up\n"));

    let outcome = claude_sdk::read_output_line(
        sid,
        r#"{"type":"control_request","request_id":"r9","request":{"subtype":"hook_callback"}}"#,
    );
    let reply = outcome.reply.expect("an answer");
    assert!(to_json_text(&reply).contains("\"permissionDecision\":\"allow\""));

    match classify_line(r#"{"jsonrpc":"2.0","id":12,"result":{}}"#) {
        AcpMessage::Response(r) => assert_eq!(r.id, 12),
        other => panic!("unexpected {other:?}"),
    }
    assert!(matches!(classify_line("garbage"), AcpMessage::Unrecognized));

    let record = SseRecord { event_type: "token.usage".to_string(), data: r#"{"input":3}"#.to_string() };
    let events = record_events(sid, &record);
    assert!(matches!(&events[..], [OrchestratorEvent::TokenUsage { usage, .. }] if matches!(usage.get("input"), Some(JsonValue::Integer(3)))));
    let broken = SseRecord { event_type: "tool.call".to_string(), data: "{oops".to_string() };
    assert!(record_events(sid, &broken).is_empty());
}

#[test]
fn sessions_are_stamped_with_the_clock() {
    let config = OrchestratorConfig { agents: vec![], event_buffer_size: 4 };
    let mut orchestrator: Orchestrator<u8> = Orchestrator::new(config).expect("orchestrator");
    let mut bus: EventBroadcaster = orchestrator.new_event_bus();
    let session = orchestrator.register_session_now(SessionId::from_u128(9), 1, "x".to_string(), None, &mut bus);
    assert!(session.created_at > 1_600_000_000_000);
}
