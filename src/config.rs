use vstd::prelude::*;

verus! {

/// Protocol family of an agent backend.
#[derive(Debug, Clone, Copy, PartialEq, Eq, Structural)]
pub enum AgentType {
    /// Line-delimited JSON-RPC over stdio.
    Acp,
    /// JSON-lines control protocol with permission callbacks.
    ClaudeSdk,
    /// JSON-lines notifications, prompts as plain text.
    Codex,
    /// HTTP sessions and Server-Sent Events.
    OpenCode,
}

/// One environment variable handed to an agent process.
#[derive(Debug, Clone, PartialEq, Eq)]
pub struct EnvVar {
    pub key: String,
    pub value: String,
}

/// How to launch and present one agent.
#[derive(Debug, Clone, PartialEq, Eq)]
pub struct AgentConfig {
    pub id: String,
    pub display_name: String,
    pub agent_type: AgentType,
    pub command: String,
    pub args: Vec<String>,
    pub env: Vec<EnvVar>,
    pub enabled: bool,
}

/// The orchestrator's configuration.
#[derive(Debug, Clone, PartialEq, Eq)]
pub struct OrchestratorConfig {
    pub agents: Vec<AgentConfig>,
    pub event_buffer_size: usize,
}

/// An agent entry as the configuration document writes it: the optional
/// settings may be left out.
#[derive(Debug, Clone, PartialEq, Eq)]
pub struct AgentEntry {
    pub id: String,
    pub display_name: String,
    pub agent_type: AgentType,
    pub command: String,
    pub args: Option<Vec<String>>,
    pub env: Option<Vec<EnvVar>>,
    pub enabled: Option<bool>,
}

/// A configuration document as written, before defaults are applied.
#[derive(Debug, Clone, PartialEq, Eq)]
pub struct ConfigDocument {
    pub agents: Vec<AgentEntry>,
    pub event_buffer_size: Option<usize>,
}

pub const DEFAULT_EVENT_BUFFER_SIZE: usize = 1000;

/// Capacity of the event bus when the document names none.
pub fn default_event_buffer_size() -> (r: usize)
    ensures
        r == 1000,
{
    DEFAULT_EVENT_BUFFER_SIZE
}

/// Whether an agent is enabled when the document does not say.
pub fn default_enabled() -> (r: bool)
    ensures
        r,
{
    true
}

/// `a` is the agent that entry `e` describes.
pub open spec fn describes(e: AgentEntry, a: AgentConfig) -> bool {
    &&& a.id == e.id
    &&& a.display_name == e.display_name
    &&& a.agent_type == e.agent_type
    &&& a.command == e.command
    &&& a.args@ == (match e.args {
        Some(v) => v@,
        None => Seq::<String>::empty(),
    })
    &&& a.env@ == (match e.env {
        Some(v) => v@,
        None => Seq::<EnvVar>::empty(),
    })
    &&& a.enabled == (match e.enabled {
        Some(b) => b,
        None => true,
    })
}

impl AgentEntry {
    /// The agent this entry describes.
    pub fn into_agent(self) -> (r: AgentConfig)
        ensures
            describes(self, r),
    {
        let args = match self.args {
            Some(a) => a,
            None => Vec::new(),
        };
        let env = match self.env {
            Some(v) => v,
            None => Vec::new(),
        };
        let enabled = match self.enabled {
            Some(b) => b,
            None => default_enabled(),
        };
        AgentConfig {
            id: self.id,
            display_name: self.display_name,
            agent_type: self.agent_type,
            command: self.command,
            args,
            env,
            enabled,
        }
    }
}

impl OrchestratorConfig {
    /// The configuration that a document describes: one agent per entry, in
    /// order, with the defaults applied (no arguments, no environment,
    /// enabled; a bus of 1000 events).
    pub fn from_document(doc: ConfigDocument) -> (r: Self)
        ensures
            r.agents@.len() == doc.agents@.len(),
            forall|i: int| 0 <= i < doc.agents@.len() ==> describes(doc.agents@[i], #[trigger] r.agents@[i]),
            r.event_buffer_size == (match doc.event_buffer_size {
                Some(n) => n,
                None => 1000,
            }),
    {
        let event_buffer_size = match doc.event_buffer_size {
            Some(n) => n,
            None => default_event_buffer_size(),
        };
        let mut rest = doc.agents;
        let ghost all = rest@;
        let ghost n = all.len();
        let mut agents: Vec<AgentConfig> = Vec::new();
        while rest.len() > 0
            invariant
                agents@.len() + rest@.len() == n,
                n == all.len(),
                rest@ == all.subrange(agents@.len() as int, n as int),
                forall|i: int| 0 <= i < agents@.len() ==> describes(all[i], #[trigger] agents@[i]),
            decreases rest@.len(),
        {
            let ghost k = agents@.len() as int;
            let e = rest.remove(0);
            assert(e == all[k]);
            agents.push(e.into_agent());
            assert(rest@ =~= all.subrange(agents@.len() as int, n as int));
        }
        OrchestratorConfig { agents, event_buffer_size }
    }
}

} // verus!
