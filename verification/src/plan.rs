//! The declarative plan document: what a caller hands to the compiler.

use vstd::prelude::*;
use crate::text::opt_text;

verus! {

/// How an activity is carried out.
#[derive(Debug, Clone, Copy, PartialEq, Eq, Structural)]
pub enum ActivityType {
    /// Delegated to a remote agent.
    DelegationAgent,
    /// A local tool call.
    DirectToolUse,
    /// A local sequence of tasks.
    DirectTaskExecution,
}

/// The optional `agent` block of an activity.
#[derive(Debug, Clone)]
pub struct AgentConfigInput {
    pub skill_to_use: Option<String>,
    pub assigned_agent_id_preference: Option<String>,
    pub agent_context: Option<serde_json::Value>,
}

pub struct AgentConfigInputView {
    pub skill_to_use: Option<Seq<char>>,
    pub assigned_agent_id_preference: Option<Seq<char>>,
    pub agent_context: Option<serde_json::Value>,
}

impl DeepView for AgentConfigInput {
    type V = AgentConfigInputView;

    open spec fn deep_view(&self) -> AgentConfigInputView {
        AgentConfigInputView {
            skill_to_use: opt_text(self.skill_to_use),
            assigned_agent_id_preference: opt_text(self.assigned_agent_id_preference),
            agent_context: self.agent_context,
        }
    }
}

impl View for AgentConfigInput {
    type V = AgentConfigInputView;

    open spec fn view(&self) -> AgentConfigInputView {
        self.deep_view()
    }
}

/// One entry of the `tools` list of an activity.
#[derive(Debug, Clone)]
pub struct ToolConfigInput {
    pub tool_to_use: Option<String>,
    pub tool_parameters: serde_json::Value,
}

pub struct ToolConfigInputView {
    pub tool_to_use: Option<Seq<char>>,
    pub tool_parameters: serde_json::Value,
}

impl DeepView for ToolConfigInput {
    type V = ToolConfigInputView;

    open spec fn deep_view(&self) -> ToolConfigInputView {
        ToolConfigInputView {
            tool_to_use: opt_text(self.tool_to_use),
            tool_parameters: self.tool_parameters,
        }
    }
}

impl View for ToolConfigInput {
    type V = ToolConfigInputView;

    open spec fn view(&self) -> ToolConfigInputView {
        self.deep_view()
    }
}

/// One entry of the `tasks` list of an activity.
#[derive(Debug, Clone)]
pub struct TaskConfigInput {
    pub task_to_use: Option<String>,
    pub task_parameters: serde_json::Value,
}

pub struct TaskConfigInputView {
    pub task_to_use: Option<Seq<char>>,
    pub task_parameters: serde_json::Value,
}

impl DeepView for TaskConfigInput {
    type V = TaskConfigInputView;

    open spec fn deep_view(&self) -> TaskConfigInputView {
        TaskConfigInputView {
            task_to_use: opt_text(self.task_to_use),
            task_parameters: self.task_parameters,
        }
    }
}

impl View for TaskConfigInput {
    type V = TaskConfigInputView;

    open spec fn view(&self) -> TaskConfigInputView {
        self.deep_view()
    }
}

/// A declared precedence: the activity that holds it runs after `source`,
/// and only if `condition`, when present, holds of the outcome of `source`.
#[derive(Debug, Clone)]
pub struct Dependency {
    pub source: String,
    pub condition: Option<String>,
}

pub struct DependencyView {
    pub source: Seq<char>,
    pub condition: Option<Seq<char>>,
}

impl DeepView for Dependency {
    type V = DependencyView;

    open spec fn deep_view(&self) -> DependencyView {
        DependencyView { source: self.source@, condition: opt_text(self.condition) }
    }
}

impl View for Dependency {
    type V = DependencyView;

    open spec fn view(&self) -> DependencyView {
        self.deep_view()
    }
}

/// One activity of a plan document.
#[derive(Debug, Clone)]
pub struct ActivityInput {
    pub activity_type: ActivityType,
    pub id: String,
    pub description: String,
    /// The `type` entry of the document.
    pub kind: String,
    pub agent: Option<AgentConfigInput>,
    pub tools: Option<Vec<ToolConfigInput>>,
    pub tasks: Option<Vec<TaskConfigInput>>,
    pub dependencies: Vec<Dependency>,
    pub expected_outcome: String,
}

pub struct ActivityInputView {
    pub activity_type: ActivityType,
    pub id: Seq<char>,
    pub description: Seq<char>,
    pub kind: Seq<char>,
    pub agent: Option<AgentConfigInputView>,
    pub tools: Option<Seq<ToolConfigInputView>>,
    pub tasks: Option<Seq<TaskConfigInputView>>,
    pub dependencies: Seq<DependencyView>,
    pub expected_outcome: Seq<char>,
}

impl DeepView for ActivityInput {
    type V = ActivityInputView;

    open spec fn deep_view(&self) -> ActivityInputView {
        ActivityInputView {
            activity_type: self.activity_type,
            id: self.id@,
            description: self.description@,
            kind: self.kind@,
            agent: self.agent.deep_view(),
            tools: self.tools.deep_view(),
            tasks: self.tasks.deep_view(),
            dependencies: self.dependencies.deep_view(),
            expected_outcome: self.expected_outcome@,
        }
    }
}

impl View for ActivityInput {
    type V = ActivityInputView;

    open spec fn view(&self) -> ActivityInputView {
        self.deep_view()
    }
}

/// A plan document: a name and its activities, in declaration order.
#[derive(Debug, Clone)]
pub struct WorkflowPlanInput {
    pub plan_name: String,
    pub activities: Vec<ActivityInput>,
}

pub struct WorkflowPlanInputView {
    pub plan_name: Seq<char>,
    pub activities: Seq<ActivityInputView>,
}

impl DeepView for WorkflowPlanInput {
    type V = WorkflowPlanInputView;

    open spec fn deep_view(&self) -> WorkflowPlanInputView {
        WorkflowPlanInputView {
            plan_name: self.plan_name@,
            activities: self.activities.deep_view(),
        }
    }
}

impl View for WorkflowPlanInput {
    type V = WorkflowPlanInputView;

    open spec fn view(&self) -> WorkflowPlanInputView {
        self.deep_view()
    }
}

} // verus!
