use vstd::prelude::*;

use crate::config::AgentType;
use crate::events::OrchestratorEvent;
use crate::json::JsonValue;
use crate::orchestrator::AgentInfo;
use crate::session::{copy_model_config, Session, SessionModelConfig};
use crate::text::{join2, join3};

verus! {

/// A request from the front end.
#[derive(Debug, Clone)]
pub enum ClientMessage {
    CreateSession { agent_id: String, project_path: String, model_config: Option<SessionModelConfig> },
    SendPrompt { session_id: String, prompt: String },
    CloseSession { session_id: String },
    ListAgents,
    ListSessions,
}

/// An agent as the front end sees it.
#[derive(Debug, Clone, PartialEq, Eq)]
pub struct AgentInfoMessage {
    pub id: String,
    pub display_name: String,
    pub agent_type: String,
    pub enabled: bool,
}

/// A session as the front end sees it.
#[derive(Debug, Clone, PartialEq, Eq)]
pub struct SessionInfoMessage {
    pub session_id: String,
    pub agent_name: String,
    pub status: String,
    pub model_config: Option<SessionModelConfig>,
}

/// A message to the front end. Session identities are in their canonical
/// text form.
#[derive(Debug, Clone)]
pub enum ServerMessage {
    SessionCreated { session_id: String, agent_name: String, model_config: Option<SessionModelConfig> },
    ContentDelta { session_id: String, content: String },
    ToolCall { session_id: String, tool_name: String, args: JsonValue },
    FileChange { session_id: String, path: String, action: String, content: Option<String>, diff: Option<String> },
    TokenUsage { session_id: String, usage: JsonValue },
    Thinking { session_id: String, content: String },
    SessionClosed { session_id: String },
    PromptAccepted { session_id: String },
    AgentList { agents: Vec<AgentInfoMessage> },
    SessionList { sessions: Vec<SessionInfoMessage> },
    Error { message: String },
}

/// `m` is what the front end is told of event `e`: the same fields, with the
/// identity as text; a session error becomes an error message naming the
/// session.
pub open spec fn tells(m: ServerMessage, e: OrchestratorEvent) -> bool {
    match (e, m) {
        (
            OrchestratorEvent::SessionCreated { session_id, agent_name, model_config },
            ServerMessage::SessionCreated { session_id: s, agent_name: n, model_config: c },
        ) => s@ == session_id.text() && n == agent_name && c == model_config,
        (OrchestratorEvent::ContentDelta { session_id, content }, ServerMessage::ContentDelta { session_id: s, content: c }) =>
            s@ == session_id.text() && c == content,
        (
            OrchestratorEvent::ToolCall { session_id, tool_name, args },
            ServerMessage::ToolCall { session_id: s, tool_name: t, args: a },
        ) => s@ == session_id.text() && t == tool_name && a == args,
        (
            OrchestratorEvent::FileChange { session_id, path, action, content, diff },
            ServerMessage::FileChange { session_id: s, path: p, action: a, content: c, diff: d },
        ) => s@ == session_id.text() && p == path && a == action && c == content && d == diff,
        (OrchestratorEvent::TokenUsage { session_id, usage }, ServerMessage::TokenUsage { session_id: s, usage: u }) =>
            s@ == session_id.text() && u == usage,
        (OrchestratorEvent::Thinking { session_id, content }, ServerMessage::Thinking { session_id: s, content: c }) =>
            s@ == session_id.text() && c == content,
        (OrchestratorEvent::SessionError { session_id, error }, ServerMessage::Error { message }) =>
            message@ == "session "@ + session_id.text() + ": "@ + error@,
        (OrchestratorEvent::SessionClosed { session_id }, ServerMessage::SessionClosed { session_id: s }) =>
            s@ == session_id.text(),
        _ => false,
    }
}

/// What the front end is told of an event.
pub fn event_to_server_message(event: OrchestratorEvent) -> (r: ServerMessage)
    ensures
        tells(r, event),
{
    match event {
        OrchestratorEvent::SessionCreated { session_id, agent_name, model_config } =>
            ServerMessage::SessionCreated { session_id: session_id.to_string(), agent_name, model_config },
        OrchestratorEvent::ContentDelta { session_id, content } =>
            ServerMessage::ContentDelta { session_id: session_id.to_string(), content },
        OrchestratorEvent::ToolCall { session_id, tool_name, args } =>
            ServerMessage::ToolCall { session_id: session_id.to_string(), tool_name, args },
        OrchestratorEvent::FileChange { session_id, path, action, content, diff } =>
            ServerMessage::FileChange { session_id: session_id.to_string(), path, action, content, diff },
        OrchestratorEvent::TokenUsage { session_id, usage } =>
            ServerMessage::TokenUsage { session_id: session_id.to_string(), usage },
        OrchestratorEvent::Thinking { session_id, content } =>
            ServerMessage::Thinking { session_id: session_id.to_string(), content },
        OrchestratorEvent::SessionError { session_id, error } => {
            let id = session_id.to_string();
            let head = join3("session ", id.as_str(), ": ");
            ServerMessage::Error { message: join2(head.as_str(), error.as_str()) }
        },
        OrchestratorEvent::SessionClosed { session_id } =>
            ServerMessage::SessionClosed { session_id: session_id.to_string() },
    }
}

/// The name of an agent type as the front end sees it.
pub open spec fn agent_type_text(t: AgentType) -> Seq<char> {
    match t {
        AgentType::Acp => "Acp"@,
        AgentType::ClaudeSdk => "ClaudeSdk"@,
        AgentType::Codex => "Codex"@,
        AgentType::OpenCode => "OpenCode"@,
    }
}

pub fn agent_type_label(t: AgentType) -> (r: String)
    ensures
        r@ == agent_type_text(t),
{
    match t {
        AgentType::Acp => String::from_str("Acp"),
        AgentType::ClaudeSdk => String::from_str("ClaudeSdk"),
        AgentType::Codex => String::from_str("Codex"),
        AgentType::OpenCode => String::from_str("OpenCode"),
    }
}

/// The answer to a request for the agent list.
pub fn agent_list_message(agents: &Vec<AgentInfo>) -> (r: Vec<AgentInfoMessage>)
    ensures
        r@.len() == agents@.len(),
        forall|i: int| 0 <= i < agents@.len() ==> {
            &&& (#[trigger] r@[i]).id == agents@[i].id
            &&& r@[i].display_name == agents@[i].display_name
            &&& r@[i].agent_type@ == agent_type_text(agents@[i].agent_type)
            &&& r@[i].enabled == agents@[i].enabled
        },
{
    let mut out: Vec<AgentInfoMessage> = Vec::new();
    let mut i: usize = 0;
    while i < agents.len()
        invariant
            i <= agents@.len(),
            out@.len() == i,
            forall|k: int| 0 <= k < i ==> {
                &&& (#[trigger] out@[k]).id == agents@[k].id
                &&& out@[k].display_name == agents@[k].display_name
                &&& out@[k].agent_type@ == agent_type_text(agents@[k].agent_type)
                &&& out@[k].enabled == agents@[k].enabled
            },
        decreases agents@.len() - i,
    {
        let a = &agents[i];
        out.push(AgentInfoMessage {
            id: a.id.clone(),
            display_name: a.display_name.clone(),
            agent_type: agent_type_label(a.agent_type),
            enabled: a.enabled,
        });
        i = i + 1;
    }
    out
}

/// The answer to a request for the session list.
pub fn session_list_message(sessions: &Vec<Session>) -> (r: Vec<SessionInfoMessage>)
    ensures
        r@.len() == sessions@.len(),
        forall|i: int| 0 <= i < sessions@.len() ==> {
            &&& (#[trigger] r@[i]).session_id@ == sessions@[i].id.text()
            &&& r@[i].agent_name == sessions@[i].agent_name
            &&& r@[i].model_config == sessions@[i].model_config
        },
{
    let mut out: Vec<SessionInfoMessage> = Vec::new();
    let mut i: usize = 0;
    while i < sessions.len()
        invariant
            i <= sessions@.len(),
            out@.len() == i,
            forall|k: int| 0 <= k < i ==> {
                &&& (#[trigger] out@[k]).session_id@ == sessions@[k].id.text()
                &&& out@[k].agent_name == sessions@[k].agent_name
                &&& out@[k].model_config == sessions@[k].model_config
            },
        decreases sessions@.len() - i,
    {
        let s = &sessions[i];
        out.push(SessionInfoMessage {
            session_id: s.id.to_string(),
            agent_name: s.agent_name.clone(),
            status: s.status.label(),
            model_config: copy_model_config(&s.model_config),
        });
        i = i + 1;
    }
    out
}

/// What the front end is told of a session it created.
pub fn session_created_message(session: &Session) -> (r: ServerMessage)
    ensures
        r is SessionCreated,
        tells(r, OrchestratorEvent::SessionCreated {
            session_id: session.id,
            agent_name: session.agent_name,
            model_config: session.model_config,
        }),
{
    ServerMessage::SessionCreated {
        session_id: session.id.to_string(),
        agent_name: session.agent_name.clone(),
        model_config: copy_model_config(&session.model_config),
    }
}

} // verus!
