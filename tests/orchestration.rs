use std::sync::atomic::{AtomicBool, Ordering};
use std::sync::Arc;

use agent_orchestrator::{
    AgentEntry, AgentType, ConfigDocument, EnvVar, EventBroadcaster, ExecutorPlan, Orchestrator, OrchestratorConfig,
    OrchestratorError, OrchestratorEvent, RecvError, SessionId, SessionManager, SessionModelConfig,
    SessionReasoningEffort, SessionStatus,
};

#[derive(Clone)]
struct MockExecutor {
    name: String,
    started: Arc<AtomicBool>,
    shutdown_called: Arc<AtomicBool>,
}

impl MockExecutor {
    fn new(name: &str) -> Self {
        Self {
            name: name.to_string(),
            started: Arc::new(AtomicBool::new(false)),
            shutdown_called: Arc::new(AtomicBool::new(false)),
        }
    }

    fn start(&self) {
        self.started.store(true, Ordering::SeqCst);
    }

    fn shutdown(&self) {
        self.shutdown_called.store(true, Ordering::SeqCst);
    }

    fn is_started(&self) -> bool {
        self.started.load(Ordering::SeqCst)
    }

    fn is_shutdown(&self) -> bool {
        self.shutdown_called.load(Ordering::SeqCst)
    }
}

fn create(
    manager: &mut SessionManager<MockExecutor>,
    bus: &mut EventBroadcaster,
    executor: MockExecutor,
) -> agent_orchestrator::Session {
    let mut id = SessionId::new();
    while manager.contains(&id) {
        id = SessionId::new();
    }
    executor.start();
    let name = executor.name.clone();
    manager.create_session(id, executor, name, 0, None, bus)
}

fn entry(id: &str, name: &str, kind: AgentType, command: &str, args: Option<Vec<&str>>, enabled: Option<bool>) -> AgentEntry {
    AgentEntry {
        id: id.to_string(),
        display_name: name.to_string(),
        agent_type: kind,
        command: command.to_string(),
        args: args.map(|a| a.into_iter().map(|s| s.to_string()).collect()),
        env: None,
        enabled,
    }
}

fn basic_config() -> OrchestratorConfig {
    OrchestratorConfig::from_document(ConfigDocument {
        agents: vec![
            entry("agent-a", "Agent A", AgentType::Acp, "echo", Some(vec!["hello"]), Some(true)),
            entry("agent-b", "Agent B", AgentType::Codex, "codex", None, Some(true)),
        ],
        event_buffer_size: Some(256),
    })
}

#[test]
fn test_create_session() {
    let mut bus = EventBroadcaster::new(16);
    let mut manager = SessionManager::new();
    let executor = MockExecutor::new("mock-executor");
    let executor_handle = executor.clone();

    let session = create(&mut manager, &mut bus, executor);

    assert_eq!(session.agent_name, "mock-executor");
    assert_eq!(session.status, SessionStatus::Ready);
    assert!(executor_handle.is_started());
}

#[test]
fn test_list_sessions() {
    let mut bus = EventBroadcaster::new(16);
    let mut manager = SessionManager::new();

    create(&mut manager, &mut bus, MockExecutor::new("agent-1"));
    create(&mut manager, &mut bus, MockExecutor::new("agent-2"));

    let sessions = manager.list_sessions();
    assert_eq!(sessions.len(), 2);
}

#[test]
fn test_get_session() {
    let mut bus = EventBroadcaster::new(16);
    let mut manager = SessionManager::new();

    let created = create(&mut manager, &mut bus, MockExecutor::new("agent-get"));

    let found = manager.get_session(&created.id);
    assert!(found.is_some());
    assert_eq!(found.expect("session should exist").id, created.id);

    let missing = manager.get_session(&SessionId::new());
    assert!(missing.is_none());
}

#[test]
fn test_close_session() {
    let mut bus = EventBroadcaster::new(16);
    let mut manager = SessionManager::new();
    let executor = MockExecutor::new("agent-close");
    let executor_handle = executor.clone();

    let created = create(&mut manager, &mut bus, executor);

    let removed = manager.close_session(&created.id).expect("session should close");
    removed.shutdown();

    let sessions = manager.list_sessions();
    assert!(sessions.is_empty());
    assert!(executor_handle.is_shutdown());
}

#[test]
fn test_send_prompt() {
    let mut bus = EventBroadcaster::new(16);
    let mut manager = SessionManager::new();

    let created = create(&mut manager, &mut bus, MockExecutor::new("agent-prompt"));

    let executor = manager.executor_for(&created.id).expect("send prompt should succeed");
    assert_eq!(executor.name, "agent-prompt");
}

#[test]
fn test_close_nonexistent_session() {
    let mut manager: SessionManager<MockExecutor> = SessionManager::new();
    let missing = SessionId::new();

    let err = match manager.close_session(&missing) {
        Ok(_) => panic!("close should fail for missing session"),
        Err(e) => e,
    };

    match err {
        OrchestratorError::SessionNotFound(id) => assert_eq!(id, missing.to_string()),
        other => panic!("expected SessionNotFound, got: {other:?}"),
    }
    assert!(manager.list_sessions().is_empty());
}

#[test]
fn test_event_broadcast_and_receive() {
    let mut broadcaster = EventBroadcaster::new(16);
    let stream = broadcaster.subscribe();
    let session_id = SessionId::new();

    broadcaster.emit(OrchestratorEvent::SessionCreated {
        session_id,
        agent_name: "mock-agent".to_string(),
        model_config: None,
    });

    let event = stream.try_recv(&mut broadcaster).expect("event should be received");
    match event {
        OrchestratorEvent::SessionCreated { session_id: received_id, agent_name, model_config } => {
            assert_eq!(*received_id, session_id);
            assert_eq!(agent_name, "mock-agent");
            assert!(model_config.is_none());
        }
        other => panic!("expected SessionCreated, got: {other:?}"),
    }
}

#[test]
fn test_multiple_subscribers() {
    let mut broadcaster = EventBroadcaster::new(16);
    let stream_a = broadcaster.subscribe();
    let stream_b = broadcaster.subscribe();
    let session_id = SessionId::new();

    broadcaster.emit(OrchestratorEvent::SessionClosed { session_id });

    match stream_a.try_recv(&mut broadcaster).expect("subscriber A should receive") {
        OrchestratorEvent::SessionClosed { session_id: received_id } => assert_eq!(*received_id, session_id),
        other => panic!("expected SessionClosed for A, got: {other:?}"),
    }
    match stream_b.try_recv(&mut broadcaster).expect("subscriber B should receive") {
        OrchestratorEvent::SessionClosed { session_id: received_id } => assert_eq!(*received_id, session_id),
        other => panic!("expected SessionClosed for B, got: {other:?}"),
    }
}

#[test]
fn test_try_recv_empty() {
    let mut broadcaster = EventBroadcaster::new(16);
    let stream = broadcaster.subscribe();
    assert!(stream.try_recv(&mut broadcaster).is_err());
}

#[test]
fn bus_keeps_order_and_skips_late_subscribers() {
    let mut bus = EventBroadcaster::new(4);
    let early = bus.subscribe();
    let sid = SessionId::from_u128(7);
    bus.emit(OrchestratorEvent::ContentDelta { session_id: sid, content: "one".to_string() });
    let late = bus.subscribe();
    bus.emit(OrchestratorEvent::ContentDelta { session_id: sid, content: "two".to_string() });

    for expected in ["one", "two"] {
        match early.try_recv(&mut bus) {
            Ok(OrchestratorEvent::ContentDelta { content, .. }) => assert_eq!(content, expected),
            other => panic!("unexpected {other:?}"),
        }
    }
    match late.try_recv(&mut bus) {
        Ok(OrchestratorEvent::ContentDelta { content, .. }) => assert_eq!(content, "two"),
        other => panic!("unexpected {other:?}"),
    }
    assert_eq!(late.try_recv(&mut bus).err(), Some(RecvError::Empty));
    bus.close();
    assert_eq!(early.try_recv(&mut bus).err(), Some(RecvError::Closed));
}

#[test]
fn bus_reports_missed_events() {
    let mut bus = EventBroadcaster::new(2);
    let s = bus.subscribe();
    let sid = SessionId::from_u128(1);
    for text in ["a", "b", "c", "d", "e"] {
        bus.emit(OrchestratorEvent::Thinking { session_id: sid, content: text.to_string() });
    }
    assert_eq!(s.try_recv(&mut bus).err(), Some(RecvError::Lagged(3)));
    match s.try_recv(&mut bus) {
        Ok(OrchestratorEvent::Thinking { content, .. }) => assert_eq!(content, "d"),
        other => panic!("unexpected {other:?}"),
    }
}

#[test]
fn bus_without_subscribers_drops_events() {
    let mut bus = EventBroadcaster::new(2);
    bus.emit(OrchestratorEvent::SessionClosed { session_id: SessionId::from_u128(3) });
    let s = bus.subscribe();
    assert_eq!(s.try_recv(&mut bus).err(), Some(RecvError::Empty));
}

#[test]
fn close_session_is_announced_to_prior_subscriber() {
    let config = basic_config();
    let mut orchestrator: Orchestrator<MockExecutor> = Orchestrator::new(config).expect("orchestrator should initialize");
    let mut bus = orchestrator.new_event_bus();
    let stream = orchestrator.subscribe_events(&mut bus);
    let id = SessionId::from_u128(42);
    assert!(orchestrator.is_fresh(&id));
    let session = orchestrator.register_session(id, MockExecutor::new("agent-a"), "agent-a".to_string(), 5, None, &mut bus);
    assert_eq!(session.created_at, 5);
    assert!(!orchestrator.is_fresh(&id));
    let executor = orchestrator.close_session(&id).expect("known session closes");
    executor.shutdown();
    orchestrator.session_closed(id, &mut bus);
    assert!(matches!(stream.try_recv(&mut bus), Ok(OrchestratorEvent::SessionCreated { .. })));
    match stream.try_recv(&mut bus) {
        Ok(OrchestratorEvent::SessionClosed { session_id }) => assert_eq!(*session_id, id),
        other => panic!("unexpected {other:?}"),
    }
    assert!(orchestrator.active_sessions().is_empty());
}

#[test]
fn test_parse_config() {
    let config = OrchestratorConfig::from_document(ConfigDocument {
        agents: vec![
            AgentEntry {
                id: "sdk-acp".to_string(),
                display_name: "Code Agent ACP".to_string(),
                agent_type: AgentType::Acp,
                command: "agent-cli".to_string(),
                args: Some(vec!["agent".to_string(), "--transport".to_string(), "stdio".to_string()]),
                env: Some(vec![EnvVar {
                    key: "CLAUDE_CODE_ENTRYPOINT".to_string(),
                    value: "agent-orchestrator".to_string(),
                }]),
                enabled: Some(true),
            },
            entry("codex-default", "Codex CLI", AgentType::Codex, "codex", None, None),
        ],
        event_buffer_size: Some(2048),
    });
    assert_eq!(config.event_buffer_size, 2048);
    assert_eq!(config.agents.len(), 2);

    let acp = &config.agents[0];
    assert_eq!(acp.id, "sdk-acp");
    assert_eq!(acp.display_name, "Code Agent ACP");
    assert_eq!(acp.agent_type, AgentType::Acp);
    assert_eq!(acp.command, "agent-cli");
    assert_eq!(acp.args, vec!["agent", "--transport", "stdio"]);
    assert!(acp.enabled);
    assert_eq!(acp.env.len(), 1);
    assert_eq!(acp.env[0].key, "CLAUDE_CODE_ENTRYPOINT");
    assert_eq!(acp.env[0].value, "agent-orchestrator");

    let codex = &config.agents[1];
    assert_eq!(codex.agent_type, AgentType::Codex);
    assert!(codex.args.is_empty());
    assert!(codex.env.is_empty());
    assert!(codex.enabled);
}

#[test]
fn test_config_parsing() {
    let config = basic_config();

    assert_eq!(config.event_buffer_size, 256);
    assert_eq!(config.agents.len(), 2);

    let first = &config.agents[0];
    assert_eq!(first.id, "agent-a");
    assert_eq!(first.display_name, "Agent A");
    assert!(first.enabled);
    assert_eq!(first.command, "echo");
    assert_eq!(first.args, vec!["hello"]);
}

#[test]
fn omitted_settings_take_their_defaults() {
    let config = OrchestratorConfig::from_document(ConfigDocument {
        agents: vec![entry("a", "a", AgentType::Acp, "echo", Some(vec!["hi"]), Some(true))],
        event_buffer_size: None,
    });
    assert_eq!(config.event_buffer_size, 1000);
    assert_eq!(config.agents.len(), 1);
    assert!(config.agents[0].enabled);
    assert_eq!(config.agents[0].id, "a");
}

#[test]
fn test_orchestrator_creation() {
    let orchestrator: Orchestrator<MockExecutor> =
        Orchestrator::new(basic_config()).expect("orchestrator should initialize");

    let agents = orchestrator.available_agents();
    assert_eq!(agents.len(), 2);
    assert_eq!(agents[0].id, "agent-a");
    assert_eq!(agents[1].id, "agent-b");
}

#[test]
fn test_list_agents() {
    let config = OrchestratorConfig::from_document(ConfigDocument {
        agents: vec![
            entry("enabled-agent", "Enabled Agent", AgentType::Acp, "echo", None, Some(true)),
            entry("disabled-agent", "Disabled Agent", AgentType::Acp, "echo", None, Some(false)),
        ],
        event_buffer_size: Some(64),
    });

    let orchestrator: Orchestrator<MockExecutor> = Orchestrator::new(config).expect("orchestrator should initialize");
    let agents = orchestrator.available_agents();

    assert_eq!(agents.len(), 1);
    assert_eq!(agents[0].id, "enabled-agent");
}

#[test]
fn test_subscribe_events() {
    let orchestrator: Orchestrator<MockExecutor> =
        Orchestrator::new(basic_config()).expect("orchestrator should initialize");
    let mut bus = orchestrator.new_event_bus();

    let stream = orchestrator.subscribe_events(&mut bus);
    assert!(stream.try_recv(&mut bus).is_err());
}

#[test]
fn test_session_not_found() {
    let orchestrator: Orchestrator<MockExecutor> =
        Orchestrator::new(basic_config()).expect("orchestrator should initialize");

    let missing_session = SessionId::new();
    let result = match orchestrator.send_prompt(&missing_session) {
        Ok(_) => panic!("send_prompt should fail for missing session"),
        Err(e) => e,
    };

    match result {
        OrchestratorError::SessionNotFound(id) => assert_eq!(id, missing_session.to_string()),
        other => panic!("expected SessionNotFound, got: {other:?}"),
    }
}

#[test]
fn unknown_agent_is_not_found() {
    let config = OrchestratorConfig::from_document(ConfigDocument {
        agents: vec![entry("a", "a", AgentType::Acp, "echo", Some(vec!["hi"]), Some(true))],
        event_buffer_size: None,
    });
    let orchestrator: Orchestrator<MockExecutor> = Orchestrator::new(config).expect("orchestrator should initialize");
    match orchestrator.plan_session("ghost", None) {
        Err(OrchestratorError::AgentNotFound(id)) => assert_eq!(id, "ghost"),
        other => panic!("unexpected {other:?}"),
    }
}

#[test]
fn disabled_agent_is_not_found_and_plans_follow_the_type() {
    let config = OrchestratorConfig::from_document(ConfigDocument {
        agents: vec![
            entry("off", "Off", AgentType::Acp, "echo", None, Some(false)),
            entry("cx", "Codex", AgentType::Codex, "codex", None, None),
            entry("oc", "OpenCode", AgentType::OpenCode, "opencode", None, None),
        ],
        event_buffer_size: Some(8),
    });
    let orchestrator: Orchestrator<MockExecutor> = Orchestrator::new(config).expect("orchestrator should initialize");
    assert!(matches!(orchestrator.plan_session("off", None), Err(OrchestratorError::AgentNotFound(_))));

    let model = SessionModelConfig { model: Some("o4-mini".to_string()), reasoning_effort: Some(SessionReasoningEffort::High) };
    let plan = orchestrator.plan_session("cx", Some(model)).expect("codex agent");
    match plan.executor {
        ExecutorPlan::Codex(options) => {
            assert_eq!(options.model.as_deref(), Some("o4-mini"));
            assert_eq!(options.reasoning_effort, Some(agent_orchestrator::ReasoningEffort::High));
        }
        other => panic!("unexpected {other:?}"),
    }

    let empty = SessionModelConfig { model: Some(String::new()), reasoning_effort: None };
    let plan = orchestrator.plan_session("oc", Some(empty)).expect("opencode agent");
    assert!(plan.model_config.is_none());
    match plan.executor {
        ExecutorPlan::OpenCode(options) => {
            assert!(options.model.is_none());
            assert!(options.provider.is_none());
        }
        other => panic!("unexpected {other:?}"),
    }
}

#[test]
fn zero_buffer_is_a_configuration_error() {
    let config = OrchestratorConfig::from_document(ConfigDocument { agents: vec![], event_buffer_size: Some(0) });
    let r: Result<Orchestrator<MockExecutor>, _> = Orchestrator::new(config);
    assert!(matches!(r, Err(OrchestratorError::Config(_))));
}

#[test]
fn sessions_get_distinct_identities() {
    let mut bus = EventBroadcaster::new(16);
    let mut manager = SessionManager::new();
    let mut ids = Vec::new();
    for i in 0..5 {
        ids.push(create(&mut manager, &mut bus, MockExecutor::new(&format!("agent-{i}"))).id);
    }
    let sessions = manager.list_sessions();
    assert_eq!(sessions.len(), 5);
    for i in 0..5 {
        for j in (i + 1)..5 {
            assert_ne!(ids[i], ids[j]);
        }
    }
    let text = ids[0].to_string();
    assert_eq!(text.len(), 36);
    assert_eq!(SessionId::from_string(&text).expect("canonical text parses"), ids[0]);
    assert!(SessionId::from_string("not-a-uuid").is_err());
}
