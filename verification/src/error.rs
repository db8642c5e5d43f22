//! What can go wrong when the engine is asked for something.
use crate::model::Dup;
use crate::text::{concat, concat3, decimal, write_decimal};
use vstd::prelude::*;

verus! {

/// An error that the caller learns of at once. What goes wrong later, in a turn, is
/// told in events.
#[derive(Debug)]
pub enum EngineError {
    /// There is no such session.
    SessionNotFound(String),
    /// The store failed.
    Storage(String),
    /// A provider failed.
    Provider(String),
    /// The agent's definition could not be used.
    Prompt(String),
    /// The engine has been shut down.
    Shutdown,
    /// The session did not come to rest in time.
    StopTimeout {
        /// The session.
        session_id: String,
        /// How long the engine waited.
        timeout_secs: u64,
    },
}

/// The mathematical value of an [`EngineError`].
#[verifier::ext_equal]
pub enum EngineErrorView {
    SessionNotFound(Seq<char>),
    Storage(Seq<char>),
    Provider(Seq<char>),
    Prompt(Seq<char>),
    Shutdown,
    StopTimeout { session_id: Seq<char>, timeout_secs: u64 },
}

impl View for EngineError {
    type V = EngineErrorView;

    open spec fn view(&self) -> EngineErrorView {
        match self {
            EngineError::SessionNotFound(id) => EngineErrorView::SessionNotFound(id@),
            EngineError::Storage(e) => EngineErrorView::Storage(e@),
            EngineError::Provider(e) => EngineErrorView::Provider(e@),
            EngineError::Prompt(e) => EngineErrorView::Prompt(e@),
            EngineError::Shutdown => EngineErrorView::Shutdown,
            EngineError::StopTimeout { session_id, timeout_secs } => EngineErrorView::StopTimeout {
                session_id: session_id@,
                timeout_secs: *timeout_secs,
            },
        }
    }
}

/// What is said of a session that did not come to rest in time.
pub open spec fn stop_timeout_message(session_id: Seq<char>, timeout_secs: u64) -> Seq<char> {
    "会话停止超时（"@ + decimal(timeout_secs as nat) + "s）：session="@ + session_id
}

/// Says that a session did not come to rest in time.
fn write_stop_timeout(session_id: &str, timeout_secs: u64) -> (res: String)
    ensures
        res@ == stop_timeout_message(session_id@, timeout_secs),
{
    let head = concat3(
        "会话停止超时（",
        write_decimal(timeout_secs).as_str(),
        "s）：session=",
    );
    concat(head.as_str(), session_id)
}

impl EngineErrorView {
    /// What is said of an error.
    pub open spec fn message(self) -> Seq<char> {
        match self {
            EngineErrorView::SessionNotFound(id) => "会话未找到: "@ + id,
            EngineErrorView::Storage(e) => "存储错误: "@ + e,
            EngineErrorView::Provider(e) => "提供者错误: "@ + e,
            EngineErrorView::Prompt(e) => e,
            EngineErrorView::Shutdown => "引擎已关闭"@,
            EngineErrorView::StopTimeout { session_id, timeout_secs } => stop_timeout_message(
                session_id,
                timeout_secs,
            ),
        }
    }
}

impl EngineError {
    /// What is said of an error.
    pub fn to_string(&self) -> (res: String)
        ensures
            res@ == self@.message(),
    {
        match self {
            EngineError::SessionNotFound(id) => concat("会话未找到: ", id.as_str()),
            EngineError::Storage(e) => concat("存储错误: ", e.as_str()),
            EngineError::Provider(e) => concat("提供者错误: ", e.as_str()),
            EngineError::Prompt(e) => e.dup(),
            EngineError::Shutdown => "引擎已关闭".to_owned(),
            EngineError::StopTimeout { session_id, timeout_secs } => write_stop_timeout(
                session_id.as_str(),
                *timeout_secs,
            ),
        }
    }
}

/// An error as a tool sees it that works with sessions of its own.
#[derive(Debug)]
pub enum SubagentError {
    /// There is no such session.
    SessionNotFound(String),
    /// The store failed.
    Storage(String),
    /// The agent's definition could not be used.
    Prompt(String),
    /// Anything else.
    Internal(String),
    /// The engine has been shut down.
    Shutdown,
}

/// The mathematical value of a [`SubagentError`].
#[verifier::ext_equal]
pub enum SubagentErrorView {
    SessionNotFound(Seq<char>),
    Storage(Seq<char>),
    Prompt(Seq<char>),
    Internal(Seq<char>),
    Shutdown,
}

impl View for SubagentError {
    type V = SubagentErrorView;

    open spec fn view(&self) -> SubagentErrorView {
        match self {
            SubagentError::SessionNotFound(id) => SubagentErrorView::SessionNotFound(id@),
            SubagentError::Storage(e) => SubagentErrorView::Storage(e@),
            SubagentError::Prompt(e) => SubagentErrorView::Prompt(e@),
            SubagentError::Internal(e) => SubagentErrorView::Internal(e@),
            SubagentError::Shutdown => SubagentErrorView::Shutdown,
        }
    }
}

/// An error of the engine as a tool sees it.
pub open spec fn subagent_error_of(e: EngineErrorView) -> SubagentErrorView {
    match e {
        EngineErrorView::SessionNotFound(id) => SubagentErrorView::SessionNotFound(id),
        EngineErrorView::Storage(e) => SubagentErrorView::Storage(e),
        EngineErrorView::Prompt(e) => SubagentErrorView::Prompt(e),
        EngineErrorView::Provider(e) => SubagentErrorView::Internal(e),
        EngineErrorView::Shutdown => SubagentErrorView::Shutdown,
        EngineErrorView::StopTimeout { session_id, timeout_secs } => SubagentErrorView::Internal(
            stop_timeout_message(session_id, timeout_secs),
        ),
    }
}

impl SubagentError {
    /// An error of the engine as a tool sees it.
    pub fn from_engine(e: EngineError) -> (res: SubagentError)
        ensures
            res@ == subagent_error_of(e@),
    {
        match e {
            EngineError::SessionNotFound(id) => SubagentError::SessionNotFound(id),
            EngineError::Storage(e) => SubagentError::Storage(e),
            EngineError::Prompt(e) => SubagentError::Prompt(e),
            EngineError::Provider(e) => SubagentError::Internal(e),
            EngineError::Shutdown => SubagentError::Shutdown,
            EngineError::StopTimeout { session_id, timeout_secs } => SubagentError::Internal(
                write_stop_timeout(session_id.as_str(), timeout_secs),
            ),
        }
    }
}

/// A tool sees an error of the engine for what it is: a session that is not there, a
/// store or a definition that failed, and a shutdown, each with the same words; anything
/// else is internal.
pub proof fn law_tools_see_errors_for_what_they_are(
    words: Seq<char>,
    timeout_secs: u64,
)
    ensures
        subagent_error_of(EngineErrorView::SessionNotFound(words))
            == SubagentErrorView::SessionNotFound(words),
        subagent_error_of(EngineErrorView::Storage(words)) == SubagentErrorView::Storage(words),
        subagent_error_of(EngineErrorView::Prompt(words)) == SubagentErrorView::Prompt(words),
        subagent_error_of(EngineErrorView::Provider(words)) == SubagentErrorView::Internal(words),
        subagent_error_of(EngineErrorView::Shutdown) == SubagentErrorView::Shutdown,
        subagent_error_of(EngineErrorView::StopTimeout { session_id: words, timeout_secs })
            == SubagentErrorView::Internal(
            "会话停止超时（"@ + decimal(timeout_secs as nat) + "s）：session="@ + words,
        ),
{
}

/// What is said of an error names what it is about.
pub proof fn law_errors_say_what_they_are_about(words: Seq<char>, timeout_secs: u64)
    ensures
        EngineErrorView::SessionNotFound(words).message() == "会话未找到: "@ + words,
        EngineErrorView::Storage(words).message() == "存储错误: "@ + words,
        EngineErrorView::Provider(words).message() == "提供者错误: "@ + words,
        EngineErrorView::Prompt(words).message() == words,
        EngineErrorView::Shutdown.message() == "引擎已关闭"@,
        (EngineErrorView::StopTimeout { session_id: words, timeout_secs }).message()
            == "会话停止超时（"@ + decimal(timeout_secs as nat) + "s）：session="@ + words,
{
}

} // verus!
