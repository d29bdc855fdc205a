//! The errors of compilation and execution.

use vstd::prelude::*;
use vstd::string::StringExecFns;

verus! {

/// Why a plan document was refused. Every one is fatal and is reported
/// before any activity runs; no partial graph is produced.
#[derive(Debug, Clone, Copy, PartialEq, Eq, Structural)]
pub enum CompileError {
    /// The dependencies form a cycle.
    CycleDetected,
    /// A dependency names an id that no activity declares.
    UnknownDependency,
    /// Two activities declare the same id.
    DuplicateNodeId,
    /// The document lacks an entry that every plan must have. Decoding a
    /// document reports this; a decoded plan holds every entry by its type.
    MissingRequiredField,
}

impl CompileError {
    /// The text of this error.
    pub open spec fn text(self) -> Seq<char> {
        match self {
            CompileError::CycleDetected => "the dependencies of the plan form a cycle"@,
            CompileError::UnknownDependency => "a dependency names an undeclared activity"@,
            CompileError::DuplicateNodeId => "two activities declare the same id"@,
            CompileError::MissingRequiredField => "the plan lacks a required field"@,
        }
    }

    /// A description of this error for a reader.
    pub fn message(&self) -> (m: String)
        ensures
            m@ == self.text(),
    {
        match self {
            CompileError::CycleDetected => "the dependencies of the plan form a cycle".to_string(),
            CompileError::UnknownDependency => "a dependency names an undeclared activity".to_string(),
            CompileError::DuplicateNodeId => "two activities declare the same id".to_string(),
            CompileError::MissingRequiredField => "the plan lacks a required field".to_string(),
        }
    }
}

/// Why one activity failed, as the capability that ran it reports it.
#[derive(Debug, Clone)]
pub enum ExecutionError {
    RemoteAgentUnavailable,
    RemoteAgentError(String),
    ToolExecutionError(String),
    TaskExecutionError(String),
    Timeout,
}

pub enum ExecutionErrorView {
    RemoteAgentUnavailable,
    RemoteAgentError(Seq<char>),
    ToolExecutionError(Seq<char>),
    TaskExecutionError(Seq<char>),
    Timeout,
}

impl ExecutionErrorView {
    /// The text of this error.
    pub open spec fn text(self) -> Seq<char> {
        match self {
            ExecutionErrorView::RemoteAgentUnavailable => "remote agent unavailable"@,
            ExecutionErrorView::RemoteAgentError(m) => "remote agent error: "@ + m,
            ExecutionErrorView::ToolExecutionError(m) => "tool execution error: "@ + m,
            ExecutionErrorView::TaskExecutionError(m) => "task execution error: "@ + m,
            ExecutionErrorView::Timeout => "timeout"@,
        }
    }
}

impl View for ExecutionError {
    type V = ExecutionErrorView;

    open spec fn view(&self) -> ExecutionErrorView {
        match self {
            ExecutionError::RemoteAgentUnavailable => ExecutionErrorView::RemoteAgentUnavailable,
            ExecutionError::RemoteAgentError(m) => ExecutionErrorView::RemoteAgentError(m@),
            ExecutionError::ToolExecutionError(m) => ExecutionErrorView::ToolExecutionError(m@),
            ExecutionError::TaskExecutionError(m) => ExecutionErrorView::TaskExecutionError(m@),
            ExecutionError::Timeout => ExecutionErrorView::Timeout,
        }
    }
}

impl ExecutionError {
    /// A description of this error for a reader.
    pub fn message(&self) -> (m: String)
        ensures
            m@ == self@.text(),
    {
        match self {
            ExecutionError::RemoteAgentUnavailable => "remote agent unavailable".to_string(),
            ExecutionError::RemoteAgentError(m) => "remote agent error: ".to_string().concat(
                m.as_str(),
            ),
            ExecutionError::ToolExecutionError(m) => "tool execution error: ".to_string().concat(
                m.as_str(),
            ),
            ExecutionError::TaskExecutionError(m) => "task execution error: ".to_string().concat(
                m.as_str(),
            ),
            ExecutionError::Timeout => "timeout".to_string(),
        }
    }
}

/// Why a plan failed as a whole.
#[derive(Debug, Clone)]
pub enum PlanError {
    /// No activity is free of dependencies, so nothing can start.
    EmptyFrontier,
    /// The run was cancelled from outside.
    Cancelled,
    /// The activity with this id failed with this error.
    NodeExecutionFailed(String, ExecutionError),
}

pub enum PlanErrorView {
    EmptyFrontier,
    Cancelled,
    NodeExecutionFailed(Seq<char>, ExecutionErrorView),
}

impl PlanErrorView {
    /// The reason that a failed plan records for this error. That of a failed
    /// activity names its id and the underlying error.
    pub open spec fn reason(self) -> Seq<char> {
        match self {
            PlanErrorView::EmptyFrontier => "empty frontier: no activity is free to start"@,
            PlanErrorView::Cancelled => "cancelled"@,
            PlanErrorView::NodeExecutionFailed(id, e) => "activity '"@ + id + "' failed: "@
                + e.text(),
        }
    }
}

impl View for PlanError {
    type V = PlanErrorView;

    open spec fn view(&self) -> PlanErrorView {
        match self {
            PlanError::EmptyFrontier => PlanErrorView::EmptyFrontier,
            PlanError::Cancelled => PlanErrorView::Cancelled,
            PlanError::NodeExecutionFailed(id, e) => PlanErrorView::NodeExecutionFailed(id@, e@),
        }
    }
}

impl PlanError {
    /// The reason that a failed plan records for this error.
    pub fn message(&self) -> (m: String)
        ensures
            m@ == self@.reason(),
    {
        match self {
            PlanError::EmptyFrontier => "empty frontier: no activity is free to start".to_string(),
            PlanError::Cancelled => "cancelled".to_string(),
            PlanError::NodeExecutionFailed(id, e) => {
                let text = e.message();
                "activity '".to_string().concat(id.as_str()).concat("' failed: ").concat(
                    text.as_str(),
                )
            },
        }
    }
}

} // verus!
