//! Supervises coding-agent backends that speak different protocols: one
//! session lifecycle, one stream of typed events, one request surface.

pub mod acp;
pub mod api_types;
pub mod claude_sdk;
pub mod codex;
pub mod config;
pub mod domain;
pub mod error;
pub mod events;
pub mod filesystem;
pub mod ids;
pub mod json;
pub mod mail_router;
pub mod opencode;
pub mod orchestrator;
pub mod registry;
pub mod session;
pub mod text;
pub mod ws_protocol;

pub use acp::{JsonRpcError, JsonRpcNotification, JsonRpcRequest, JsonRpcResponse, PendingTable};
pub use api_types::{ErrorResponse, HealthCheckResponse, NewUser};
pub use codex::{CodexModelOptions, ReasoningEffort};
pub use config::{AgentConfig, AgentEntry, AgentType, ConfigDocument, EnvVar, OrchestratorConfig};
pub use domain::{
    AgentExecutionRequest, AgentExecutionResult, AgentExecutorError, DomainError, Language, MailCategory,
    MailContent, MailMessage, MailStatus, MailTitle, Score, SubmissionStatus,
};
pub use error::OrchestratorError;
pub use events::{EventBroadcaster, EventStream, OrchestratorEvent, RecvError};
pub use filesystem::{
    DirectoryInfo, FileInfo, FileSystemCapabilities, FileSystemEntry, FileSystemError, SearchOptions, SearchResult,
};
pub use ids::{InvalidIdError, MailId, ProblemId, SubmissionId, UserId};
pub use json::JsonValue;
pub use mail_router::MailRouter;
pub use opencode::{OpenCodeModelOptions, SseDecoder, SseRecord};
pub use orchestrator::{AgentInfo, ExecutorPlan, Orchestrator, SessionPlan};
pub use registry::SessionManager;
pub use session::{Session, SessionId, SessionModelConfig, SessionReasoningEffort, SessionStatus};
pub use ws_protocol::{AgentInfoMessage, ClientMessage, ServerMessage, SessionInfoMessage};
