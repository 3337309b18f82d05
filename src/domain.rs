use vstd::prelude::*;

use crate::ids::{MailId, ProblemId, SubmissionId, UserId};
use crate::text::{decimal_text, int_text, join3, trim, trimmed};

verus! {

/// Errors of the judging domain's value types.
#[derive(Debug, Clone, Copy, PartialEq, Eq)]
pub enum DomainError {
    InvalidScore(u16),
    EmptyMailTitle,
    InvalidMailTitleLength(usize),
    EmptyMailContent,
    InvalidMailContentLength(usize),
}

impl DomainError {
    /// The message of this error.
    pub open spec fn message(self) -> Seq<char> {
        match self {
            DomainError::InvalidScore(v) =>
                "invalid score: "@ + decimal_text(v as int) + ". score must be in [0, 100]"@,
            DomainError::EmptyMailTitle => "invalid mail title: title cannot be empty"@,
            DomainError::InvalidMailTitleLength(n) =>
                "invalid mail title length: "@ + decimal_text(n as int)
                    + ". title length must be in [1, 120]"@,
            DomainError::EmptyMailContent => "invalid mail content: content cannot be empty"@,
            DomainError::InvalidMailContentLength(n) =>
                "invalid mail content length: "@ + decimal_text(n as int)
                    + ". content length must be in [1, 10000]"@,
        }
    }

    pub fn to_string(&self) -> (r: String)
        ensures
            r@ == self.message(),
    {
        match self {
            DomainError::InvalidScore(v) => {
                let n = int_text(*v as i128);
                join3("invalid score: ", n.as_str(), ". score must be in [0, 100]")
            },
            DomainError::EmptyMailTitle => String::from_str("invalid mail title: title cannot be empty"),
            DomainError::InvalidMailTitleLength(len) => {
                let n = int_text(*len as i128);
                join3("invalid mail title length: ", n.as_str(), ". title length must be in [1, 120]")
            },
            DomainError::EmptyMailContent => String::from_str("invalid mail content: content cannot be empty"),
            DomainError::InvalidMailContentLength(len) => {
                let n = int_text(*len as i128);
                join3(
                    "invalid mail content length: ",
                    n.as_str(),
                    ". content length must be in [1, 10000]",
                )
            },
        }
    }
}

/// A score in `[0, 100]`.
#[derive(Debug, Clone, Copy, PartialEq, Eq, PartialOrd, Ord, Hash)]
pub struct Score(u16);

pub const SCORE_MIN: u16 = 0;
pub const SCORE_MAX: u16 = 100;

impl Score {
    pub const MIN: u16 = 0;
    pub const MAX: u16 = 100;

    pub closed spec fn spec_value(self) -> u16 {
        self.0
    }

    pub closed spec fn wf(self) -> bool {
        self.0 <= SCORE_MAX
    }

    pub fn new(value: u16) -> (r: Result<Self, DomainError>)
        ensures
            value <= 100 ==> r is Ok && r->Ok_0.spec_value() == value,
            value > 100 ==> r == Err::<Score, DomainError>(DomainError::InvalidScore(value)),
    {
        if value <= SCORE_MAX {
            Ok(Score(value))
        } else {
            Err(DomainError::InvalidScore(value))
        }
    }

    pub fn value(self) -> (r: u16)
        ensures
            r == self.spec_value(),
    {
        self.0
    }

    /// The lowest score.
    pub fn zero() -> (r: Self)
        ensures
            r.spec_value() == 0,
    {
        Score(SCORE_MIN)
    }
}

impl Default for Score {
    fn default() -> (r: Self)
        ensures
            r.spec_value() == 0,
    {
        Score(SCORE_MIN)
    }
}

/// Programming language of a submission.
#[derive(Debug, Clone, Copy, PartialEq, Eq, Hash, Structural)]
pub enum Language {
    Rust,
    Cpp,
    Java,
    Python,
    Go,
    JavaScript,
    TypeScript,
}

/// Judging state of a submission.
#[derive(Debug, Clone, Copy, PartialEq, Eq, Hash, Structural)]
pub enum SubmissionStatus {
    Pending,
    Running,
    Accepted,
    WrongAnswer,
    TimeLimitExceeded,
    RuntimeError,
    CompileError,
    InternalError,
}

/// Kind of a mail.
#[derive(Debug, Clone, Copy, PartialEq, Eq, Hash, Structural)]
pub enum MailCategory {
    System,
    SubmissionResult,
    Contest,
    Security,
    Activity,
}

/// Whether a mail was read.
#[derive(Debug, Clone, Copy, PartialEq, Eq, Hash, Structural)]
pub enum MailStatus {
    Unread,
    Read,
}

pub const MAIL_TITLE_MAX_LEN: usize = 120;
pub const MAIL_CONTENT_MAX_LEN: usize = 10000;

/// A mail title: trimmed, between 1 and 120 characters.
#[derive(Debug, Clone, PartialEq, Eq, Hash)]
pub struct MailTitle(String);

impl MailTitle {
    pub const MAX_LEN: usize = 120;

    pub closed spec fn text(&self) -> Seq<char> {
        self.0@
    }

    /// Builds a title from text that was already trimmed.
    pub fn from_trimmed(t: String) -> (r: Result<Self, DomainError>)
        ensures
            t@.len() == 0 ==> r == Err::<MailTitle, DomainError>(DomainError::EmptyMailTitle),
            t@.len() > 120 ==> r == Err::<MailTitle, DomainError>(
                DomainError::InvalidMailTitleLength(t@.len() as usize),
            ),
            1 <= t@.len() <= 120 ==> r is Ok && r->Ok_0.text() == t@,
    {
        let len = t.as_str().unicode_len();
        if len == 0 {
            return Err(DomainError::EmptyMailTitle);
        }
        if len > MAIL_TITLE_MAX_LEN {
            return Err(DomainError::InvalidMailTitleLength(len));
        }
        Ok(MailTitle(t))
    }

    /// Builds a title from `value` with surrounding white space removed.
    pub fn new(value: &str) -> (r: Result<Self, DomainError>)
        ensures
            trimmed(value@).len() == 0 ==> r == Err::<MailTitle, DomainError>(DomainError::EmptyMailTitle),
            trimmed(value@).len() > 120 ==> r == Err::<MailTitle, DomainError>(
                DomainError::InvalidMailTitleLength(trimmed(value@).len() as usize),
            ),
            1 <= trimmed(value@).len() <= 120 ==> r is Ok && r->Ok_0.text() == trimmed(value@),
    {
        Self::from_trimmed(trim(value))
    }

    pub fn as_str(&self) -> (r: &str)
        ensures
            r@ == self.text(),
    {
        self.0.as_str()
    }

    pub fn copy(&self) -> (r: Self)
        ensures
            r == *self,
    {
        MailTitle(self.0.clone())
    }
}

/// A mail body: trimmed, between 1 and 10000 characters.
#[derive(Debug, Clone, PartialEq, Eq, Hash)]
pub struct MailContent(String);

impl MailContent {
    pub const MAX_LEN: usize = 10000;

    pub closed spec fn text(&self) -> Seq<char> {
        self.0@
    }

    /// Builds a body from text that was already trimmed.
    pub fn from_trimmed(t: String) -> (r: Result<Self, DomainError>)
        ensures
            t@.len() == 0 ==> r == Err::<MailContent, DomainError>(DomainError::EmptyMailContent),
            t@.len() > 10000 ==> r == Err::<MailContent, DomainError>(
                DomainError::InvalidMailContentLength(t@.len() as usize),
            ),
            1 <= t@.len() <= 10000 ==> r is Ok && r->Ok_0.text() == t@,
    {
        let len = t.as_str().unicode_len();
        if len == 0 {
            return Err(DomainError::EmptyMailContent);
        }
        if len > MAIL_CONTENT_MAX_LEN {
            return Err(DomainError::InvalidMailContentLength(len));
        }
        Ok(MailContent(t))
    }

    /// Builds a body from `value` with surrounding white space removed.
    pub fn new(value: &str) -> (r: Result<Self, DomainError>)
        ensures
            trimmed(value@).len() == 0 ==> r == Err::<MailContent, DomainError>(DomainError::EmptyMailContent),
            trimmed(value@).len() > 10000 ==> r == Err::<MailContent, DomainError>(
                DomainError::InvalidMailContentLength(trimmed(value@).len() as usize),
            ),
            1 <= trimmed(value@).len() <= 10000 ==> r is Ok && r->Ok_0.text() == trimmed(value@),
    {
        Self::from_trimmed(trim(value))
    }

    pub fn as_str(&self) -> (r: &str)
        ensures
            r@ == self.text(),
    {
        self.0.as_str()
    }

    pub fn copy(&self) -> (r: Self)
        ensures
            r == *self,
    {
        MailContent(self.0.clone())
    }
}

/// A mail addressed to one user.
#[derive(Debug, Clone, PartialEq, Eq)]
pub struct MailMessage {
    id: MailId,
    recipient_id: UserId,
    category: MailCategory,
    status: MailStatus,
    title: MailTitle,
    content: MailContent,
}

impl MailMessage {
    pub closed spec fn spec_id(&self) -> MailId {
        self.id
    }

    pub closed spec fn spec_recipient(&self) -> UserId {
        self.recipient_id
    }

    pub closed spec fn spec_category(&self) -> MailCategory {
        self.category
    }

    pub closed spec fn spec_status(&self) -> MailStatus {
        self.status
    }

    pub closed spec fn spec_title(&self) -> MailTitle {
        self.title
    }

    pub closed spec fn spec_content(&self) -> MailContent {
        self.content
    }

    /// A new unread mail with a fresh identity.
    pub fn new(recipient_id: UserId, category: MailCategory, title: MailTitle, content: MailContent) -> (r: Self)
        ensures
            r.spec_recipient() == recipient_id,
            r.spec_category() == category,
            r.spec_status() == MailStatus::Unread,
            r.spec_title() == title,
            r.spec_content() == content,
    {
        MailMessage {
            id: MailId::new(),
            recipient_id,
            category,
            status: MailStatus::Unread,
            title,
            content,
        }
    }

    pub fn id(&self) -> (r: MailId)
        ensures
            r == self.spec_id(),
    {
        self.id
    }

    pub fn recipient_id(&self) -> (r: UserId)
        ensures
            r == self.spec_recipient(),
    {
        self.recipient_id
    }

    pub fn category(&self) -> (r: MailCategory)
        ensures
            r == self.spec_category(),
    {
        self.category
    }

    pub fn status(&self) -> (r: MailStatus)
        ensures
            r == self.spec_status(),
    {
        self.status
    }

    pub fn title(&self) -> (r: &MailTitle)
        ensures
            *r == self.spec_title(),
    {
        &self.title
    }

    pub fn content(&self) -> (r: &MailContent)
        ensures
            *r == self.spec_content(),
    {
        &self.content
    }

    pub fn mark_read(&mut self)
        ensures
            final(self).spec_status() == MailStatus::Read,
            final(self).spec_id() == old(self).spec_id(),
            final(self).spec_recipient() == old(self).spec_recipient(),
            final(self).spec_category() == old(self).spec_category(),
            final(self).spec_title() == old(self).spec_title(),
            final(self).spec_content() == old(self).spec_content(),
    {
        self.status = MailStatus::Read;
    }

    pub fn mark_unread(&mut self)
        ensures
            final(self).spec_status() == MailStatus::Unread,
            final(self).spec_id() == old(self).spec_id(),
            final(self).spec_recipient() == old(self).spec_recipient(),
            final(self).spec_category() == old(self).spec_category(),
            final(self).spec_title() == old(self).spec_title(),
            final(self).spec_content() == old(self).spec_content(),
    {
        self.status = MailStatus::Unread;
    }
}

/// What an agent is asked to judge.
#[derive(Debug, Clone, PartialEq, Eq)]
pub struct AgentExecutionRequest {
    pub submission_id: SubmissionId,
    pub user_id: UserId,
    pub problem_id: ProblemId,
    pub language: Language,
    pub source_code: String,
}

/// What an agent reports for a submission.
#[derive(Debug, Clone, PartialEq, Eq)]
pub struct AgentExecutionResult {
    pub status: SubmissionStatus,
    pub score: Score,
    pub compiler_output: Option<String>,
    pub execution_output: Option<String>,
    pub runtime_ms: Option<u32>,
    pub memory_kb: Option<u32>,
}

impl AgentExecutionResult {
    /// An accepted run with its score and resource usage.
    pub fn accepted(score: Score, runtime_ms: u32, memory_kb: u32) -> (r: Self)
        ensures
            r.status == SubmissionStatus::Accepted,
            r.score == score,
            r.compiler_output is None,
            r.execution_output is None,
            r.runtime_ms == Some(runtime_ms),
            r.memory_kb == Some(memory_kb),
    {
        AgentExecutionResult {
            status: SubmissionStatus::Accepted,
            score,
            compiler_output: None,
            execution_output: None,
            runtime_ms: Some(runtime_ms),
            memory_kb: Some(memory_kb),
        }
    }

    /// A failed run: zero score and no resource usage.
    pub fn failed(
        status: SubmissionStatus,
        compiler_output: Option<String>,
        execution_output: Option<String>,
    ) -> (r: Self)
        ensures
            r.status == status,
            r.score.spec_value() == 0,
            r.compiler_output == compiler_output,
            r.execution_output == execution_output,
            r.runtime_ms is None,
            r.memory_kb is None,
    {
        AgentExecutionResult {
            status,
            score: Score::zero(),
            compiler_output,
            execution_output,
            runtime_ms: None,
            memory_kb: None,
        }
    }
}

/// Why an agent could not judge a submission.
#[derive(Debug, Clone, PartialEq, Eq)]
pub enum AgentExecutorError {
    Unavailable(String),
    Timeout,
    Failed(String),
}

} // verus!
