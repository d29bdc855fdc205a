//! What a finished plan run yields to its caller.

use vstd::prelude::*;

verus! {

/// The result of one plan run, as handed to the caller that asked for it.
#[derive(Debug, Clone)]
pub struct ExecutionResult {
    pub request_id: String,
    pub conversation_id: String,
    pub success: bool,
    /// The final outcome of a completed plan, or the reason of a failed one.
    pub output: String,
}

pub struct ExecutionResultView {
    pub request_id: Seq<char>,
    pub conversation_id: Seq<char>,
    pub success: bool,
    pub output: Seq<char>,
}

impl View for ExecutionResult {
    type V = ExecutionResultView;

    open spec fn view(&self) -> ExecutionResultView {
        ExecutionResultView {
            request_id: self.request_id@,
            conversation_id: self.conversation_id@,
            success: self.success,
            output: self.output@,
        }
    }
}

} // verus!
