use vstd::prelude::*;

use crate::ids::{parse_uuid, random_uuid, uuid_parse, uuid_text, uuid_to_string, InvalidIdError};

verus! {

/// Relies on chrono::Utc::now: the current time, in milliseconds since the
/// Unix epoch. Nothing is known of its value.
#[verifier::external_body]
pub(crate) fn now_millis() -> (r: i64) {
    chrono::Utc::now().timestamp_millis()
}

/// Identity of a session: a 128-bit value, written as a UUID.
#[derive(Debug, Clone, Copy, PartialEq, Eq, Hash, Structural)]
pub struct SessionId(pub u128);

impl SessionId {
    /// A fresh random identity.
    pub fn new() -> (r: Self) {
        SessionId(random_uuid())
    }

    /// Parses the canonical text of an identity.
    pub fn from_string(value: &str) -> (r: Result<Self, InvalidIdError>)
        ensures
            match r {
                Ok(id) => uuid_parse(value@) == Some(id.0),
                Err(_) => uuid_parse(value@) is None,
            },
    {
        match parse_uuid(value) {
            Some(v) => Ok(SessionId(v)),
            None => Err(InvalidIdError),
        }
    }

    pub fn from_u128(value: u128) -> (r: Self)
        ensures
            r.0 == value,
    {
        SessionId(value)
    }

    /// The text that crosses the transport boundary for this identity.
    pub open spec fn text(self) -> Seq<char> {
        uuid_text(self.0)
    }

    /// The canonical text of this identity.
    pub fn to_string(&self) -> (r: String)
        ensures
            r@ == self.text(),
    {
        uuid_to_string(self.0)
    }
}

impl std::str::FromStr for SessionId {
    type Err = InvalidIdError;

    fn from_str(s: &str) -> (r: Result<Self, Self::Err>)
        ensures
            match r {
                Ok(id) => uuid_parse(s@) == Some(id.0),
                Err(_) => uuid_parse(s@) is None,
            },
    {
        SessionId::from_string(s)
    }
}

/// Reasoning effort requested for a session.
#[derive(Debug, Clone, Copy, PartialEq, Eq, Structural)]
pub enum SessionReasoningEffort {
    Low,
    Medium,
    High,
}

/// Model settings requested when a session is created.
#[derive(Debug, Clone, PartialEq, Eq)]
pub struct SessionModelConfig {
    pub model: Option<String>,
    pub reasoning_effort: Option<SessionReasoningEffort>,
}

/// A copy of an optional text.
pub fn copy_opt_string(s: &Option<String>) -> (r: Option<String>)
    ensures
        r == *s,
{
    match s {
        Some(t) => Some(t.clone()),
        None => None,
    }
}

impl SessionModelConfig {
    /// The model name that is kept after normalisation: a present, non-empty one.
    pub open spec fn kept_model(self) -> Option<String> {
        match self.model {
            Some(m) => if m@.len() > 0 { Some(m) } else { None },
            None => None,
        }
    }

    /// The configuration without an empty model name; `None` when nothing
    /// is left to request.
    pub open spec fn normal_form(self) -> Option<SessionModelConfig> {
        if self.kept_model() is None && self.reasoning_effort is None {
            None
        } else {
            Some(SessionModelConfig { model: self.kept_model(), reasoning_effort: self.reasoning_effort })
        }
    }

    /// Drops an empty model name; `None` when nothing is left to request.
    pub fn normalized(self) -> (r: Option<SessionModelConfig>)
        ensures
            r == self.normal_form(),
    {
        let model = match self.model {
            Some(m) => if m.as_str().unicode_len() > 0 { Some(m) } else { None },
            None => None,
        };
        if model.is_none() && self.reasoning_effort.is_none() {
            None
        } else {
            Some(SessionModelConfig { model, reasoning_effort: self.reasoning_effort })
        }
    }

    pub fn copy(&self) -> (r: Self)
        ensures
            r == *self,
    {
        SessionModelConfig {
            model: copy_opt_string(&self.model),
            reasoning_effort: self.reasoning_effort,
        }
    }
}

/// A copy of an optional model configuration.
pub fn copy_model_config(c: &Option<SessionModelConfig>) -> (r: Option<SessionModelConfig>)
    ensures
        r == *c,
{
    match c {
        Some(m) => Some(m.copy()),
        None => None,
    }
}

/// Run state of a session.
#[derive(Debug, Clone, PartialEq, Eq)]
pub enum SessionStatus {
    Initializing,
    Ready,
    Processing,
    Idle,
    Closed,
    Error(String),
}

impl SessionStatus {
    pub fn copy(&self) -> (r: Self)
        ensures
            r == *self,
    {
        match self {
            SessionStatus::Initializing => SessionStatus::Initializing,
            SessionStatus::Ready => SessionStatus::Ready,
            SessionStatus::Processing => SessionStatus::Processing,
            SessionStatus::Idle => SessionStatus::Idle,
            SessionStatus::Closed => SessionStatus::Closed,
            SessionStatus::Error(e) => SessionStatus::Error(e.clone()),
        }
    }

    /// The status's name as the transport writes it.
    pub fn label(&self) -> (r: String)
        ensures
            r@ == (match *self {
                SessionStatus::Initializing => "Initializing"@,
                SessionStatus::Ready => "Ready"@,
                SessionStatus::Processing => "Processing"@,
                SessionStatus::Idle => "Idle"@,
                SessionStatus::Closed => "Closed"@,
                SessionStatus::Error(_) => "Error"@,
            }),
    {
        match self {
            SessionStatus::Initializing => String::from_str("Initializing"),
            SessionStatus::Ready => String::from_str("Ready"),
            SessionStatus::Processing => String::from_str("Processing"),
            SessionStatus::Idle => String::from_str("Idle"),
            SessionStatus::Closed => String::from_str("Closed"),
            SessionStatus::Error(_) => String::from_str("Error"),
        }
    }
}

/// Metadata of a session, owned by the registry.
#[derive(Debug, Clone, PartialEq, Eq)]
pub struct Session {
    pub id: SessionId,
    pub status: SessionStatus,
    pub agent_name: String,
    /// Creation time, in milliseconds since the Unix epoch (UTC).
    pub created_at: i64,
    pub model_config: Option<SessionModelConfig>,
}

impl Session {
    pub fn id(&self) -> (r: &SessionId)
        ensures
            *r == self.id,
    {
        &self.id
    }

    pub fn agent_name(&self) -> (r: &str)
        ensures
            r@ == self.agent_name@,
    {
        self.agent_name.as_str()
    }

    pub fn status(&self) -> (r: &SessionStatus)
        ensures
            *r == self.status,
    {
        &self.status
    }

    pub fn copy(&self) -> (r: Self)
        ensures
            r == *self,
    {
        Session {
            id: self.id,
            status: self.status.copy(),
            agent_name: self.agent_name.clone(),
            created_at: self.created_at,
            model_config: copy_model_config(&self.model_config),
        }
    }
}

} // verus!
