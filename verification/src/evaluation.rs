//! What an agent logs for evaluation, and what the judge returns.

use vstd::prelude::*;
use crate::outcomes::Outcomes;

verus! {

/// What an agent logs of one request, for a judge to evaluate.
#[derive(Debug, Clone)]
pub struct AgentEvaluationLogData {
    pub agent_id: String,
    pub request_id: String,
    pub conversation_id: String,
    pub step_id: Option<String>,
    pub original_user_query: String,
    pub agent_input: String,
    /// The outcome of every activity that the agent ran for the request.
    pub activities_outcome: Outcomes,
    pub agent_output: String,
    pub context_snapshot: Option<String>,
    pub success_criteria: Option<String>,
}

/// The structured evaluation that the judge returns.
#[derive(Debug, Clone)]
pub struct JudgeEvaluation {
    pub rating: String,
    pub score: u8,
    pub feedback: String,
    pub suggested_correction: Option<String>,
}

/// A log together with its evaluation.
#[derive(Debug, Clone)]
pub struct EvaluatedAgentData {
    pub agent_log: AgentEvaluationLogData,
    pub evaluation: JudgeEvaluation,
    pub timestamp: String,
}

} // verus!
