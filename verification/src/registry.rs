//! What agents, tasks and tools register with the discovery service.

use vstd::prelude::*;

verus! {

/// One skill of a registered agent. Its parameters and its output are
/// described by opaque documents.
#[derive(Debug, Clone)]
pub struct AgentSkillDefinition {
    pub name: String,
    pub description: String,
    pub parameters: serde_json::Value,
    pub output: serde_json::Value,
}

/// A registered agent.
#[derive(Debug, Clone)]
pub struct AgentDefinition {
    pub id: String,
    pub name: String,
    pub description: String,
    pub agent_endpoint: String,
    pub skills: Vec<AgentSkillDefinition>,
}

/// A registered task.
#[derive(Debug, Clone)]
pub struct TaskDefinition {
    pub id: String,
    pub name: String,
    pub description: String,
    pub input_schema: serde_json::Value,
    pub output_schema: serde_json::Value,
}

/// A registered tool.
#[derive(Debug, Clone)]
pub struct ToolDefinition {
    pub id: String,
    pub name: String,
    pub description: String,
    pub input_schema: serde_json::Value,
    pub output_schema: serde_json::Value,
}

} // verus!
