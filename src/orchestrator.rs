use vstd::prelude::*;

use crate::codex::{CodexModelOptions, ReasoningEffort};
use crate::config::{AgentConfig, AgentType, OrchestratorConfig};
use crate::error::OrchestratorError;
use crate::events::{EventBroadcaster, EventStream, OrchestratorEvent};
use crate::opencode::OpenCodeModelOptions;
use crate::registry::{not_found, SessionManager};
use crate::session::{copy_opt_string, now_millis, Session, SessionId, SessionModelConfig, SessionReasoningEffort};
use crate::text::{owned, str_eq};

verus! {

/// What the front end is told about an agent.
#[derive(Debug, Clone, PartialEq, Eq)]
pub struct AgentInfo {
    pub id: String,
    pub display_name: String,
    pub agent_type: AgentType,
    pub enabled: bool,
}

/// Which adapter serves a session, with its settings.
#[derive(Debug, Clone, PartialEq, Eq)]
pub enum ExecutorPlan {
    Acp,
    ClaudeSdk,
    Codex(CodexModelOptions),
    OpenCode(OpenCodeModelOptions),
}

/// What creating a session needs: the agent, its adapter, and the
/// normalised model settings.
#[derive(Debug)]
pub struct SessionPlan<'a> {
    pub agent: &'a AgentConfig,
    pub executor: ExecutorPlan,
    pub model_config: Option<SessionModelConfig>,
}

pub open spec fn effort_for(e: SessionReasoningEffort) -> ReasoningEffort {
    match e {
        SessionReasoningEffort::Low => ReasoningEffort::Low,
        SessionReasoningEffort::Medium => ReasoningEffort::Medium,
        SessionReasoningEffort::High => ReasoningEffort::High,
    }
}

pub fn map_reasoning_effort(value: &SessionReasoningEffort) -> (r: ReasoningEffort)
    ensures
        r == effort_for(*value),
{
    match value {
        SessionReasoningEffort::Low => ReasoningEffort::Low,
        SessionReasoningEffort::Medium => ReasoningEffort::Medium,
        SessionReasoningEffort::High => ReasoningEffort::High,
    }
}

/// The adapter for an agent type, given the normalised model settings.
pub open spec fn plan_for(kind: AgentType, cfg: Option<SessionModelConfig>) -> ExecutorPlan {
    let model = match cfg {
        Some(c) => c.model,
        None => None,
    };
    match kind {
        AgentType::Acp => ExecutorPlan::Acp,
        AgentType::ClaudeSdk => ExecutorPlan::ClaudeSdk,
        AgentType::Codex => ExecutorPlan::Codex(CodexModelOptions {
            model,
            reasoning_effort: match cfg {
                Some(c) => match c.reasoning_effort {
                    Some(e) => Some(effort_for(e)),
                    None => None,
                },
                None => None,
            },
        }),
        AgentType::OpenCode => ExecutorPlan::OpenCode(OpenCodeModelOptions { model, provider: None }),
    }
}

pub fn plan_executor(kind: AgentType, cfg: &Option<SessionModelConfig>) -> (r: ExecutorPlan)
    ensures
        r == plan_for(kind, *cfg),
{
    let model = match cfg {
        Some(c) => copy_opt_string(&c.model),
        None => None,
    };
    match kind {
        AgentType::Acp => ExecutorPlan::Acp,
        AgentType::ClaudeSdk => ExecutorPlan::ClaudeSdk,
        AgentType::Codex => {
            let reasoning_effort = match cfg {
                Some(c) => match &c.reasoning_effort {
                    Some(e) => Some(map_reasoning_effort(e)),
                    None => None,
                },
                None => None,
            };
            ExecutorPlan::Codex(CodexModelOptions { model, reasoning_effort })
        },
        AgentType::OpenCode => ExecutorPlan::OpenCode(OpenCodeModelOptions { model, provider: None }),
    }
}

/// The front end's view of an agent.
pub open spec fn info_of(a: AgentConfig) -> AgentInfo {
    AgentInfo { id: a.id, display_name: a.display_name, agent_type: a.agent_type, enabled: a.enabled }
}

/// The enabled agents among `agents`, in order.
pub open spec fn enabled_infos(agents: Seq<AgentConfig>) -> Seq<AgentInfo>
    decreases agents.len(),
{
    if agents.len() == 0 {
        Seq::empty()
    } else {
        let rest = enabled_infos(agents.drop_last());
        if agents.last().enabled {
            rest.push(info_of(agents.last()))
        } else {
            rest
        }
    }
}

/// Whether `a` can serve sessions asked for under `agent_id`.
pub open spec fn serves(a: AgentConfig, agent_id: Seq<char>) -> bool {
    a.id@ == agent_id && a.enabled
}

/// The error for an agent identity that no enabled agent has.
pub open spec fn agent_not_found(r: OrchestratorError, agent_id: Seq<char>) -> bool {
    r is AgentNotFound && r->AgentNotFound_0@ == agent_id
}

/// Resolves agents, selects adapters and keeps the registry of sessions;
/// `E` is the handle through which an executor is driven.
pub struct Orchestrator<E> {
    config: OrchestratorConfig,
    sessions: SessionManager<E>,
}

impl<E> Orchestrator<E> {
    pub closed spec fn agents(&self) -> Seq<AgentConfig> {
        self.config.agents@
    }

    pub closed spec fn buffer_size(&self) -> usize {
        self.config.event_buffer_size
    }

    pub closed spec fn registry(&self) -> SessionManager<E> {
        self.sessions
    }

    pub open spec fn wf(&self) -> bool {
        self.registry().wf() && self.buffer_size() >= 1
    }

    /// An orchestrator for `config`, with no session yet. The event buffer
    /// must hold at least one event.
    pub fn new(config: OrchestratorConfig) -> (r: Result<Self, OrchestratorError>)
        ensures
            config.event_buffer_size == 0 <==> r is Err,
            r is Err ==> r->Err_0 is Config,
            r is Ok ==> r->Ok_0.wf() && r->Ok_0.agents() == config.agents@
                && r->Ok_0.buffer_size() == config.event_buffer_size
                && r->Ok_0.registry().sessions().len() == 0,
    {
        if config.event_buffer_size == 0 {
            return Err(OrchestratorError::Config(String::from_str("event_buffer_size must be at least 1")));
        }
        Ok(Orchestrator { config, sessions: SessionManager::new() })
    }

    /// A bus sized by the configuration.
    pub fn new_event_bus(&self) -> (r: EventBroadcaster)
        requires
            self.wf(),
        ensures
            r.wf(),
            r.capacity() == self.buffer_size() as nat,
            r.log().len() == 0,
            r.subscriber_count() == 0,
            !r.is_closed(),
    {
        EventBroadcaster::new(self.config.event_buffer_size)
    }

    /// A new subscriber to `bus`.
    pub fn subscribe_events(&self, bus: &mut EventBroadcaster) -> (r: EventStream)
        requires
            old(bus).wf(),
        ensures
            final(bus).wf(),
            final(bus).has(r),
            final(bus).pending(r).len() == 0,
            final(bus).log() == old(bus).log(),
            final(bus).subscriber_count() == old(bus).subscriber_count() + 1,
    {
        bus.subscribe()
    }

    /// The first enabled agent named `agent_id`.
    pub fn find_agent(&self, agent_id: &str) -> (r: Result<&AgentConfig, OrchestratorError>)
        ensures
            match r {
                Ok(a) => exists|i: int| 0 <= i < self.agents().len() && *a == self.agents()[i]
                    && serves(*a, agent_id@)
                    && forall|j: int| 0 <= j < i ==> !serves(#[trigger] self.agents()[j], agent_id@),
                Err(e) => agent_not_found(e, agent_id@)
                    && forall|j: int| 0 <= j < self.agents().len() ==> !serves(#[trigger] self.agents()[j], agent_id@),
            },
    {
        let mut i: usize = 0;
        while i < self.config.agents.len()
            invariant
                i <= self.agents().len(),
                self.agents() == self.config.agents@,
                forall|j: int| 0 <= j < i ==> !serves(#[trigger] self.agents()[j], agent_id@),
            decreases self.agents().len() - i,
        {
            let a = &self.config.agents[i];
            if str_eq(a.id.as_str(), agent_id) && a.enabled {
                return Ok(a);
            }
            i = i + 1;
        }
        Err(OrchestratorError::AgentNotFound(owned(agent_id)))
    }

    /// Resolves agent `agent_id` and selects its adapter; only an enabled
    /// agent can serve a session.
    pub fn plan_session(&self, agent_id: &str, model_config: Option<SessionModelConfig>) -> (r: Result<SessionPlan<'_>, OrchestratorError>)
        ensures
            match r {
                Ok(p) => exists|i: int| 0 <= i < self.agents().len() && *p.agent == self.agents()[i]
                    && serves(*p.agent, agent_id@)
                    && forall|j: int| 0 <= j < i ==> !serves(#[trigger] self.agents()[j], agent_id@),
                Err(e) => agent_not_found(e, agent_id@)
                    && forall|j: int| 0 <= j < self.agents().len() ==> !serves(#[trigger] self.agents()[j], agent_id@),
            },
            r is Ok ==> r->Ok_0.model_config == (match model_config {
                Some(c) => c.normal_form(),
                None => None,
            }),
            r is Ok ==> r->Ok_0.executor == plan_for(r->Ok_0.agent.agent_type, r->Ok_0.model_config),
    {
        let agent = match self.find_agent(agent_id) {
            Ok(a) => a,
            Err(e) => return Err(e),
        };
        let normalized = match model_config {
            Some(c) => c.normalized(),
            None => None,
        };
        let executor = plan_executor(agent.agent_type, &normalized);
        Ok(SessionPlan { agent, executor, model_config: normalized })
    }

    /// Whether `id` is free for a new session.
    pub fn is_fresh(&self, id: &SessionId) -> (r: bool)
        requires
            self.wf(),
        ensures
            r == !self.registry().holds(*id),
    {
        !self.sessions.contains(id)
    }

    /// Records the session of an executor that has started, and announces it
    /// on `bus`.
    pub fn register_session(
        &mut self,
        id: SessionId,
        executor: E,
        agent_name: String,
        created_at: i64,
        model_config: Option<SessionModelConfig>,
        bus: &mut EventBroadcaster,
    ) -> (r: Session)
        requires
            old(self).wf(),
            !old(self).registry().holds(id),
            old(bus).wf(),
        ensures
            final(self).wf(),
            final(self).agents() == old(self).agents(),
            final(self).buffer_size() == old(self).buffer_size(),
            r == (Session { id, status: crate::session::SessionStatus::Ready, agent_name, created_at, model_config }),
            final(self).registry().sessions() == old(self).registry().sessions().push(r),
            final(self).registry().executors() == old(self).registry().executors().push(executor),
            final(bus).wf(),
            old(bus).sends(
                OrchestratorEvent::SessionCreated { session_id: id, agent_name, model_config },
                *final(bus),
            ),
    {
        self.sessions.create_session(id, executor, agent_name, created_at, model_config, bus)
    }

    /// Records the session of an executor that has started, stamped with the
    /// current time, and announces it on `bus`.
    pub fn register_session_now(
        &mut self,
        id: SessionId,
        executor: E,
        agent_name: String,
        model_config: Option<SessionModelConfig>,
        bus: &mut EventBroadcaster,
    ) -> (r: Session)
        requires
            old(self).wf(),
            !old(self).registry().holds(id),
            old(bus).wf(),
        ensures
            final(self).wf(),
            final(self).agents() == old(self).agents(),
            final(self).buffer_size() == old(self).buffer_size(),
            r.id == id && r.status == crate::session::SessionStatus::Ready && r.agent_name == agent_name
                && r.model_config == model_config,
            final(self).registry().sessions() == old(self).registry().sessions().push(r),
            final(self).registry().executors() == old(self).registry().executors().push(executor),
            final(bus).wf(),
            old(bus).sends(
                OrchestratorEvent::SessionCreated { session_id: id, agent_name, model_config },
                *final(bus),
            ),
    {
        let created_at = now_millis();
        self.register_session(id, executor, agent_name, created_at, model_config, bus)
    }

    /// The executor of session `id`, to which a prompt is handed.
    pub fn send_prompt(&self, id: &SessionId) -> (r: Result<&E, OrchestratorError>)
        requires
            self.wf(),
        ensures
            match r {
                Ok(e) => exists|i: int| 0 <= i < self.registry().sessions().len()
                    && self.registry().sessions()[i].id == *id && *e == self.registry().executors()[i],
                Err(err) => !self.registry().holds(*id) && not_found(err, *id),
            },
    {
        self.sessions.executor_for(id)
    }

    /// Removes session `id` and hands back its executor to be shut down.
    pub fn close_session(&mut self, id: &SessionId) -> (r: Result<E, OrchestratorError>)
        requires
            old(self).wf(),
        ensures
            final(self).wf(),
            final(self).agents() == old(self).agents(),
            final(self).buffer_size() == old(self).buffer_size(),
            !final(self).registry().holds(*id),
            match r {
                Ok(e) => exists|i: int| 0 <= i < old(self).registry().sessions().len()
                    && old(self).registry().sessions()[i].id == *id
                    && e == old(self).registry().executors()[i]
                    && final(self).registry().sessions() == old(self).registry().sessions().remove(i),
                Err(err) => !old(self).registry().holds(*id) && not_found(err, *id)
                    && final(self).registry().sessions() == old(self).registry().sessions(),
            },
    {
        self.sessions.close_session(id)
    }

    /// Announces that session `id` was shut down.
    pub fn session_closed(&self, id: SessionId, bus: &mut EventBroadcaster)
        requires
            old(bus).wf(),
        ensures
            final(bus).wf(),
            old(bus).sends(OrchestratorEvent::SessionClosed { session_id: id }, *final(bus)),
    {
        bus.emit(OrchestratorEvent::SessionClosed { session_id: id });
    }

    /// The enabled agents, in configuration order.
    pub fn available_agents(&self) -> (r: Vec<AgentInfo>)
        ensures
            r@ == enabled_infos(self.agents()),
    {
        let mut out: Vec<AgentInfo> = Vec::new();
        let mut i: usize = 0;
        assert(self.agents().subrange(0, 0) =~= Seq::<AgentConfig>::empty());
        while i < self.config.agents.len()
            invariant
                i <= self.agents().len(),
                self.agents() == self.config.agents@,
                out@ == enabled_infos(self.agents().subrange(0, i as int)),
            decreases self.agents().len() - i,
        {
            let a = &self.config.agents[i];
            let ghost sub = self.agents().subrange(0, i as int + 1);
            assert(sub.drop_last() =~= self.agents().subrange(0, i as int));
            if a.enabled {
                out.push(AgentInfo {
                    id: a.id.clone(),
                    display_name: a.display_name.clone(),
                    agent_type: a.agent_type,
                    enabled: a.enabled,
                });
            }
            i = i + 1;
        }
        assert(self.agents().subrange(0, i as int) =~= self.agents());
        out
    }

    /// A snapshot of the live sessions.
    pub fn active_sessions(&self) -> (r: Vec<Session>)
        ensures
            r@ == self.registry().sessions(),
    {
        self.sessions.list_sessions()
    }

    /// A snapshot of session `id`, if it is live.
    pub fn get_session(&self, id: &SessionId) -> (r: Option<Session>)
        requires
            self.wf(),
        ensures
            match r {
                Some(s) => s.id == *id && exists|i: int| 0 <= i < self.registry().sessions().len()
                    && self.registry().sessions()[i] == s,
                None => !self.registry().holds(*id),
            },
    {
        self.sessions.get_session(id)
    }
}

/// Once a closed session is announced, a subscriber that was present
/// before, had not fallen behind and had room left, finds `SessionClosed` for
/// it after everything it was already waiting for.
pub proof fn lemma_close_is_observed(bus0: EventBroadcaster, bus1: EventBroadcaster, id: SessionId, s: EventStream)
    requires
        bus0.wf(),
        bus0.has(s),
        bus0.next() < u64::MAX,
        bus0.missed(s) == 0,
        bus0.pending(s).len() < bus0.capacity(),
        bus0.sends(OrchestratorEvent::SessionClosed { session_id: id }, bus1),
    ensures
        bus1.pending(s) == bus0.pending(s).push(OrchestratorEvent::SessionClosed { session_id: id }),
{
    EventBroadcaster::lemma_send_reaches_subscriber(bus0, OrchestratorEvent::SessionClosed { session_id: id }, bus1, s);
}

} // verus!
