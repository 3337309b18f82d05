use vstd::prelude::*;

use crate::error::OrchestratorError;
use crate::events::{EventBroadcaster, OrchestratorEvent};
use crate::session::{copy_model_config, Session, SessionId, SessionModelConfig, SessionStatus};

verus! {

/// A session and the executor that serves it.
pub struct SessionEntry<E> {
    pub session: Session,
    pub executor: E,
}

/// The registry of live sessions: each identity at most once, with the
/// executor it owns. `E` is the handle through which the executor is driven.
pub struct SessionManager<E> {
    entries: Vec<SessionEntry<E>>,
}

/// The error for a session identity that the registry does not hold.
pub open spec fn not_found(r: OrchestratorError, id: SessionId) -> bool {
    r is SessionNotFound && r->SessionNotFound_0@ == id.text()
}

fn session_not_found(id: &SessionId) -> (r: OrchestratorError)
    ensures
        not_found(r, *id),
{
    OrchestratorError::SessionNotFound(id.to_string())
}

impl<E> SessionManager<E> {
    /// The sessions held, in order of creation.
    pub closed spec fn sessions(&self) -> Seq<Session> {
        self.entries@.map_values(|e: SessionEntry<E>| e.session)
    }

    /// The executors held, in the same order as `sessions`.
    pub closed spec fn executors(&self) -> Seq<E> {
        self.entries@.map_values(|e: SessionEntry<E>| e.executor)
    }

    /// The identities held.
    pub open spec fn ids(&self) -> Seq<SessionId> {
        self.sessions().map_values(|s: Session| s.id)
    }

    pub open spec fn holds(&self, id: SessionId) -> bool {
        exists|i: int| 0 <= i < self.sessions().len() && #[trigger] self.sessions()[i].id == id
    }

    /// No identity is held twice.
    pub open spec fn wf(&self) -> bool {
        &&& self.executors().len() == self.sessions().len()
        &&& forall|i: int, j: int| 0 <= i < j < self.sessions().len() ==> #[trigger] self.sessions()[i].id != #[trigger] self.sessions()[j].id
    }

    pub fn new() -> (r: Self)
        ensures
            r.wf(),
            r.sessions().len() == 0,
    {
        SessionManager { entries: Vec::new() }
    }

    fn find(&self, id: &SessionId) -> (r: Option<usize>)
        requires
            self.wf(),
        ensures
            match r {
                Some(i) => i < self.sessions().len() && self.sessions()[i as int].id == *id,
                None => !self.holds(*id),
            },
    {
        let mut i: usize = 0;
        while i < self.entries.len()
            invariant
                self.wf(),
                i <= self.entries@.len(),
                forall|j: int| 0 <= j < i ==> self.sessions()[j].id != *id,
            decreases self.entries@.len() - i,
        {
            if self.entries[i].session.id.0 == id.0 {
                return Some(i);
            }
            i = i + 1;
        }
        None
    }

    /// Whether a session with identity `id` is held.
    pub fn contains(&self, id: &SessionId) -> (r: bool)
        requires
            self.wf(),
        ensures
            r == self.holds(*id),
    {
        self.find(id).is_some()
    }

    /// Records the session of an executor that has started, then announces it.
    ///
    /// The session is `Ready`, named after the executor, and is announced to
    /// every subscriber of `bus` as `SessionCreated` once it is held.
    pub fn create_session(
        &mut self,
        id: SessionId,
        executor: E,
        agent_name: String,
        created_at: i64,
        model_config: Option<SessionModelConfig>,
        bus: &mut EventBroadcaster,
    ) -> (r: Session)
        requires
            old(self).wf(),
            !old(self).holds(id),
            old(bus).wf(),
        ensures
            final(self).wf(),
            r == (Session { id, status: SessionStatus::Ready, agent_name, created_at, model_config }),
            final(self).sessions() == old(self).sessions().push(r),
            final(self).executors() == old(self).executors().push(executor),
            final(bus).wf(),
            old(bus).sends(
                OrchestratorEvent::SessionCreated { session_id: id, agent_name, model_config },
                *final(bus),
            ),
    {
        let session = Session {
            id,
            status: SessionStatus::Ready,
            agent_name: agent_name.clone(),
            created_at,
            model_config: copy_model_config(&model_config),
        };
        let ghost before = self.entries@;
        self.entries.push(SessionEntry { session: session.copy(), executor });
        assert(self.sessions() =~= before.map_values(|e: SessionEntry<E>| e.session).push(session));
        assert(self.executors() =~= before.map_values(|e: SessionEntry<E>| e.executor).push(executor));
        assert forall|i: int, j: int| 0 <= i < j < self.sessions().len() implies #[trigger] self.sessions()[i].id != #[trigger] self.sessions()[j].id by {
            if j == self.sessions().len() - 1 {
                assert(self.sessions()[i] == before.map_values(|e: SessionEntry<E>| e.session)[i]);
            }
        }
        bus.emit(OrchestratorEvent::SessionCreated { session_id: id, agent_name, model_config });
        session
    }

    /// The executor of session `id`, through which a prompt is delivered.
    pub fn executor_for(&self, id: &SessionId) -> (r: Result<&E, OrchestratorError>)
        requires
            self.wf(),
        ensures
            match r {
                Ok(e) => exists|i: int| 0 <= i < self.sessions().len() && self.sessions()[i].id == *id
                    && *e == self.executors()[i],
                Err(err) => !self.holds(*id) && not_found(err, *id),
            },
    {
        match self.find(id) {
            Some(i) => {
                assert(self.executors()[i as int] == self.entries@[i as int].executor);
                Ok(&self.entries[i].executor)
            },
            None => Err(session_not_found(id)),
        }
    }

    /// Removes session `id` and hands back its executor, to be shut down.
    ///
    /// The entry is gone before the executor is handed back, so no later
    /// lookup finds a session that is being torn down.
    pub fn close_session(&mut self, id: &SessionId) -> (r: Result<E, OrchestratorError>)
        requires
            old(self).wf(),
        ensures
            final(self).wf(),
            match r {
                Ok(e) => exists|i: int| 0 <= i < old(self).sessions().len() && old(self).sessions()[i].id == *id
                    && e == old(self).executors()[i]
                    && final(self).sessions() == old(self).sessions().remove(i)
                    && final(self).executors() == old(self).executors().remove(i),
                Err(err) => !old(self).holds(*id) && not_found(err, *id)
                    && final(self).sessions() == old(self).sessions()
                    && final(self).executors() == old(self).executors(),
            },
            !final(self).holds(*id),
    {
        match self.find(id) {
            Some(i) => {
                let ghost before = self.entries@;
                let ghost old_sessions = self.sessions();
                let entry = self.entries.remove(i);
                assert(self.sessions() =~= old_sessions.remove(i as int));
                assert(self.executors() =~= before.map_values(|e: SessionEntry<E>| e.executor).remove(i as int));
                assert forall|k: int| 0 <= k < self.sessions().len() implies #[trigger] self.sessions()[k].id != *id by {
                    if k < i {
                        assert(old_sessions[k].id != old_sessions[i as int].id);
                    } else {
                        assert(old_sessions[k + 1].id != old_sessions[i as int].id);
                    }
                }
                assert forall|a: int, b: int| 0 <= a < b < self.sessions().len() implies #[trigger] self.sessions()[a].id != #[trigger] self.sessions()[b].id by {
                    let a0 = if a < i { a } else { a + 1 };
                    let b0 = if b < i { b } else { b + 1 };
                    assert(old_sessions[a0].id != old_sessions[b0].id);
                }
                Ok(entry.executor)
            },
            None => Err(session_not_found(id)),
        }
    }

    /// A snapshot of the sessions held.
    pub fn list_sessions(&self) -> (r: Vec<Session>)
        ensures
            r@ == self.sessions(),
    {
        let mut out: Vec<Session> = Vec::new();
        let mut i: usize = 0;
        while i < self.entries.len()
            invariant
                i <= self.entries@.len(),
                out@ == self.sessions().subrange(0, i as int),
            decreases self.entries@.len() - i,
        {
            out.push(self.entries[i].session.copy());
            i = i + 1;
            assert(out@ =~= self.sessions().subrange(0, i as int));
        }
        assert(self.sessions().subrange(0, i as int) =~= self.sessions());
        out
    }

    /// A snapshot of session `id`, if it is held.
    pub fn get_session(&self, id: &SessionId) -> (r: Option<Session>)
        requires
            self.wf(),
        ensures
            match r {
                Some(s) => s.id == *id && exists|i: int| 0 <= i < self.sessions().len() && self.sessions()[i] == s,
                None => !self.holds(*id),
            },
    {
        match self.find(id) {
            Some(i) => Some(self.entries[i].session.copy()),
            None => None,
        }
    }
}

/// Sessions created one after another, starting from an empty registry,
/// each under an identity the registry did not hold: the registry then holds
/// exactly those sessions, and no two share an identity.
pub proof fn lemma_created_sessions_are_distinct<E>(states: Seq<SessionManager<E>>, created: Seq<Session>)
    requires
        states.len() == created.len() + 1,
        states[0].sessions().len() == 0,
        forall|i: int| 0 <= i < created.len() ==> !(#[trigger] states[i]).holds(created[i].id),
        forall|i: int| 0 <= i < created.len() ==> (#[trigger] states[i + 1]).sessions() == states[i].sessions().push(created[i]),
    ensures
        states.last().sessions() == created,
        forall|i: int, j: int| 0 <= i < j < created.len() ==> created[i].id != created[j].id,
{
    assert forall|k: int| 0 <= k <= created.len() implies (#[trigger] states[k]).sessions() == created.subrange(0, k) by {
        lemma_prefix_held(states, created, k);
    }
    assert(created.subrange(0, created.len() as int) =~= created);
    assert forall|i: int, j: int| 0 <= i < j < created.len() implies created[i].id != created[j].id by {
        assert(states[j].sessions() == created.subrange(0, j));
        assert(states[j].sessions()[i] == created[i]);
        assert(!states[j].holds(created[j].id));
    }
}

proof fn lemma_prefix_held<E>(states: Seq<SessionManager<E>>, created: Seq<Session>, k: int)
    requires
        states.len() == created.len() + 1,
        states[0].sessions().len() == 0,
        forall|i: int| 0 <= i < created.len() ==> (#[trigger] states[i + 1]).sessions() == states[i].sessions().push(created[i]),
        0 <= k <= created.len(),
    ensures
        states[k].sessions() == created.subrange(0, k),
    decreases k,
{
    if k == 0 {
        assert(states[0].sessions() =~= created.subrange(0, 0));
    } else {
        lemma_prefix_held(states, created, k - 1);
        assert(states[(k - 1) + 1].sessions() == states[k - 1].sessions().push(created[k - 1]));
        assert(created.subrange(0, k - 1).push(created[k - 1]) =~= created.subrange(0, k));
    }
}

} // verus!
