//! The high-level plan: abstract steps linked to the resources that can
//! carry them out, before a workflow is written down in full.

use vstd::prelude::*;
use crate::plan::ActivityType;

verus! {

/// A simplified description of an available resource: an agent, a tool or a
/// task.
#[derive(Debug, Clone)]
pub struct ResourceTemplate {
    pub id: String,
    pub description: String,
    pub activity_type: ActivityType,
    pub kind: Option<String>,
    pub agent_to_use: Option<String>,
    pub tool_to_use: Option<String>,
    pub task_to_use: Option<String>,
}

/// One step of a high-level plan, with the resource that carries it out.
#[derive(Debug, Clone)]
pub struct HighLevelActivity {
    pub step_description: String,
    pub resource: ResourceTemplate,
}

/// A high-level plan: a name and its steps in order.
#[derive(Debug, Clone)]
pub struct HighLevelPLan {
    pub plan_name: String,
    pub high_level_activities: Vec<HighLevelActivity>,
}

} // verus!
