use vstd::prelude::*;

use crate::text::join2;

verus! {

/// Errors of the orchestrator.
///
/// Failures of outside facilities (I/O, JSON and TOML decoding, anything
/// else) carry their message as text.
#[derive(Debug, Clone, PartialEq, Eq)]
pub enum OrchestratorError {
    Config(String),
    Executor(String),
    /// A request got no reply in time.
    Timeout(String),
    SessionNotFound(String),
    AgentNotFound(String),
    UnsupportedAgentType,
    Io(String),
    Json(String),
    Toml(String),
    Other(String),
}

impl OrchestratorError {
    /// The message of this error.
    pub open spec fn message(self) -> Seq<char> {
        match self {
            OrchestratorError::Config(s) => "配置错误: "@ + s@,
            OrchestratorError::Executor(s) => "执行器错误: "@ + s@,
            OrchestratorError::Timeout(s) => "执行器超时: "@ + s@,
            OrchestratorError::SessionNotFound(s) => "会话未找到: "@ + s@,
            OrchestratorError::AgentNotFound(s) => "Agent 未找到: "@ + s@,
            OrchestratorError::UnsupportedAgentType => "不支持的 Agent 类型"@,
            OrchestratorError::Io(s) => "IO 错误: "@ + s@,
            OrchestratorError::Json(s) => "JSON 错误: "@ + s@,
            OrchestratorError::Toml(s) => "TOML 错误: "@ + s@,
            OrchestratorError::Other(s) => "其他错误: "@ + s@,
        }
    }

    pub fn to_string(&self) -> (r: String)
        ensures
            r@ == self.message(),
    {
        match self {
            OrchestratorError::Config(s) => join2("配置错误: ", s.as_str()),
            OrchestratorError::Executor(s) => join2("执行器错误: ", s.as_str()),
            OrchestratorError::Timeout(s) => join2("执行器超时: ", s.as_str()),
            OrchestratorError::SessionNotFound(s) => join2("会话未找到: ", s.as_str()),
            OrchestratorError::AgentNotFound(s) => join2("Agent 未找到: ", s.as_str()),
            OrchestratorError::UnsupportedAgentType => String::from_str("不支持的 Agent 类型"),
            OrchestratorError::Io(s) => join2("IO 错误: ", s.as_str()),
            OrchestratorError::Json(s) => join2("JSON 错误: ", s.as_str()),
            OrchestratorError::Toml(s) => join2("TOML 错误: ", s.as_str()),
            OrchestratorError::Other(s) => join2("其他错误: ", s.as_str()),
        }
    }
}

} // verus!
