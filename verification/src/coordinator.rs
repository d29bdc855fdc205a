//! The execution coordinator: the state machine that drives a plan.
//!
//! The coordinator decides; it performs nothing itself. `advance` takes the
//! next transition and says what is to be done outside: which capability to
//! call for the current node, and with what. The caller performs that call
//! and hands the result back through `node_finished`.
//!
//! Run this way, one node is in flight at a time. A caller that keeps a pool
//! of workers pulls the nodes to run from the frontier with
//! `resolver::admissible`, asks `dispatch` what each of them needs, and
//! reports each completion through `merge`, whenever it arrives. The context
//! is the single point where completions meet: they are merged one by one,
//! and the plan completes only when no node is left that may run.

use vstd::prelude::*;
use crate::aggregator::{aggregate, final_outcome_of};
use crate::context::{PlanContext, PlanContextView, PlanState, PlanStateView};
use crate::document::clone_opt_document;
use crate::error::{CompileError, ExecutionError, ExecutionErrorView, PlanError, PlanErrorView};
use crate::execution::{ExecutionResult, ExecutionResultView};
use crate::graph::{Graph, Node, NodeType, NodeView};
use crate::plan::{ActivityType, TaskConfigInput, TaskConfigInputView};
use crate::resolver::{eligible, is_eligible, next_node, next_of};
use crate::text::{clone_opt, opt_text};

verus! {

/// What `advance` asks of its caller.
#[derive(Debug, Clone)]
pub enum Action {
    /// A transition was taken that needs nothing from outside: advance again.
    Continue,
    /// Ask a remote agent to carry out the current node.
    Delegate { node_id: String, task_description: String, skill_hint: String },
    /// Run the tool of the current node.
    UseTool {
        node_id: String,
        tool_to_use: Option<String>,
        tool_parameters: Option<serde_json::Value>,
    },
    /// Run the tasks of the current node.
    RunTasks { node_id: String, tasks: Option<Vec<TaskConfigInput>> },
    /// Nothing can be done until something arrives from outside: the start
    /// of the run, the response of the agent, or the end of a pause.
    Await,
    /// The run is over.
    Finished,
}

pub enum ActionView {
    Continue,
    Delegate { node_id: Seq<char>, task_description: Seq<char>, skill_hint: Seq<char> },
    UseTool {
        node_id: Seq<char>,
        tool_to_use: Option<Seq<char>>,
        tool_parameters: Option<serde_json::Value>,
    },
    RunTasks { node_id: Seq<char>, tasks: Option<Seq<TaskConfigInputView>> },
    Await,
    Finished,
}

impl View for Action {
    type V = ActionView;

    open spec fn view(&self) -> ActionView {
        match self {
            Action::Continue => ActionView::Continue,
            Action::Delegate { node_id, task_description, skill_hint } => ActionView::Delegate {
                node_id: node_id@,
                task_description: task_description@,
                skill_hint: skill_hint@,
            },
            Action::UseTool { node_id, tool_to_use, tool_parameters } => ActionView::UseTool {
                node_id: node_id@,
                tool_to_use: opt_text(*tool_to_use),
                tool_parameters: *tool_parameters,
            },
            Action::RunTasks { node_id, tasks } => ActionView::RunTasks {
                node_id: node_id@,
                tasks: tasks.deep_view(),
            },
            Action::Await => ActionView::Await,
            Action::Finished => ActionView::Finished,
        }
    }
}

/// What is asked for a node, by the type of its activity. A delegation hands
/// the description of the activity and its skill, empty where it names none.
pub open spec fn dispatch_of(node: NodeView) -> ActionView {
    let a = node.activity();
    match a.activity_type {
        ActivityType::DelegationAgent => ActionView::Delegate {
            node_id: node.id,
            task_description: a.description,
            skill_hint: if a.skill_to_use is Some {
                a.skill_to_use->0
            } else {
                Seq::empty()
            },
        },
        ActivityType::DirectToolUse => ActionView::UseTool {
            node_id: node.id,
            tool_to_use: a.tool_to_use,
            tool_parameters: a.tool_parameters,
        },
        ActivityType::DirectTaskExecution => ActionView::RunTasks {
            node_id: node.id,
            tasks: a.tasks,
        },
    }
}

/// The reason recorded where a step is to run and the context names no node
/// of the graph as current.
pub open spec fn no_current_node() -> Seq<char> {
    "internal: the current step names no node"@
}

impl PlanContextView {
    /// This context, failed for `reason`.
    pub open spec fn failed(self, reason: Seq<char>) -> PlanContextView {
        PlanContextView { plan_state: PlanStateView::Failed(reason), ..self }
    }

    /// The node to run next: the first of the frontier, if any.
    pub open spec fn next(self) -> Option<usize> {
        next_of(self.graph, self.activities_outcome, self.visit_order)
    }

    /// The index of the current node, where the context names one.
    pub open spec fn current_index(self) -> Option<int> {
        if self.current_step_id is Some && self.graph.has_node(self.current_step_id->0) {
            Some(self.graph.index_of(self.current_step_id->0))
        } else {
            None
        }
    }

    /// This context with node `i` made current and about to run.
    pub open spec fn enter(self, i: usize) -> PlanContextView {
        PlanContextView {
            plan_state: PlanStateView::ExecutingStep,
            current_step_id: Some(self.graph.nodes[i as int].id),
            ..self
        }
    }

    /// The context after `start`: an idle context with a well-formed graph
    /// starts a fresh run; any other context is left as it is.
    pub open spec fn start(self, user_query: Seq<char>) -> PlanContextView {
        if self.plan_state is Idle && self.graph.wf() {
            PlanContextView {
                plan_state: PlanStateView::Initializing,
                graph: self.graph.cleared(),
                current_step_id: None,
                activities_outcome: Map::empty(),
                final_outcome: Seq::empty(),
                user_query: user_query,
                visit_order: self.graph.links().canonical_order(),
                resume_state: None,
            }
        } else {
            self
        }
    }

    /// The context after `advance`.
    pub open spec fn advance(self) -> PlanContextView {
        match self.plan_state {
            PlanStateView::Initializing => {
                if self.next() is Some {
                    self.enter(self.next()->0)
                } else {
                    self.failed(PlanErrorView::EmptyFrontier.reason())
                }
            },
            PlanStateView::ExecutingStep => {
                if self.current_index() is Some {
                    if self.graph.nodes[self.current_index()->0].activity().activity_type
                        is DelegationAgent {
                        PlanContextView { plan_state: PlanStateView::AwaitingAgentResponse, ..self }
                    } else {
                        self
                    }
                } else {
                    self.failed(no_current_node())
                }
            },
            PlanStateView::ProcessingAgentResponse => PlanContextView {
                plan_state: PlanStateView::DecidingNextStep,
                ..self
            },
            PlanStateView::DecidingNextStep => {
                if self.next() is Some {
                    self.enter(self.next()->0)
                } else {
                    PlanContextView {
                        plan_state: PlanStateView::Completed,
                        current_step_id: None,
                        final_outcome: final_outcome_of(
                            self.graph,
                            self.activities_outcome,
                            self.visit_order,
                        ),
                        ..self
                    }
                }
            },
            _ => self,
        }
    }

    /// What `advance` asks for in this context.
    pub open spec fn action(self) -> ActionView {
        match self.plan_state {
            PlanStateView::Idle => ActionView::Await,
            PlanStateView::AwaitingAgentResponse => ActionView::Await,
            PlanStateView::Paused => ActionView::Await,
            PlanStateView::Completed => ActionView::Finished,
            PlanStateView::Failed(_) => ActionView::Finished,
            PlanStateView::ExecutingStep => {
                if self.current_index() is Some {
                    dispatch_of(self.graph.nodes[self.current_index()->0])
                } else {
                    ActionView::Continue
                }
            },
            _ => ActionView::Continue,
        }
    }

    /// The context awaits the result of its current node: the node has not
    /// run yet, and the run either awaits the agent or is executing a node
    /// that is run directly.
    pub open spec fn accepts_result(self) -> bool {
        &&& self.current_index() is Some
        &&& !self.activities_outcome.dom().contains(self.current_step_id->0)
        &&& (self.plan_state is AwaitingAgentResponse || (self.plan_state is ExecutingStep
            && !(self.graph.nodes[self.current_index()->0].activity().activity_type
            is DelegationAgent)))
    }

    /// This context with `output` recorded for the node `id`, which becomes
    /// the current one: the output is written under the id of the node and
    /// at the node itself, and the response is being processed.
    pub open spec fn recorded(self, id: Seq<char>, output: Seq<char>) -> PlanContextView {
        PlanContextView {
            plan_state: PlanStateView::ProcessingAgentResponse,
            current_step_id: Some(id),
            graph: self.graph.with_output(self.graph.index_of(id), Some(output)),
            activities_outcome: self.activities_outcome.insert(id, output),
            ..self
        }
    }

    /// This context failed because the node `id` failed with `error`; the
    /// node becomes the current one, and what was recorded stays.
    pub open spec fn failed_at(self, id: Seq<char>, error: ExecutionErrorView) -> PlanContextView {
        PlanContextView {
            plan_state: PlanStateView::Failed(
                PlanErrorView::NodeExecutionFailed(id, error).reason(),
            ),
            current_step_id: Some(id),
            ..self
        }
    }

    /// The context after the current node has returned `output`.
    pub open spec fn node_completed(self, output: Seq<char>) -> PlanContextView {
        if self.accepts_result() {
            self.recorded(self.current_step_id->0, output)
        } else {
            self
        }
    }

    /// The context after the current node has failed with `error`.
    pub open spec fn node_failed(self, error: ExecutionErrorView) -> PlanContextView {
        if self.accepts_result() {
            self.failed_at(self.current_step_id->0, error)
        } else {
            self
        }
    }

    /// The outcome of the node `id` can be merged: the run is executing or
    /// awaiting, and `id` names a node that may run. This is how a pool of
    /// workers reports: each completion names its node, in whatever order
    /// the workers finish.
    pub open spec fn accepts_outcome_of(self, id: Seq<char>) -> bool {
        &&& (self.plan_state is ExecutingStep || self.plan_state is AwaitingAgentResponse)
        &&& self.graph.has_node(id)
        &&& eligible(self.graph, self.activities_outcome, self.graph.index_of(id))
    }

    /// The context after the output of the node `id` has been merged.
    pub open spec fn merge_completed(self, id: Seq<char>, output: Seq<char>) -> PlanContextView {
        if self.accepts_outcome_of(id) {
            self.recorded(id, output)
        } else {
            self
        }
    }

    /// The context after the failure of the node `id` has been merged.
    pub open spec fn merge_failed(
        self,
        id: Seq<char>,
        error: ExecutionErrorView,
    ) -> PlanContextView {
        if self.accepts_outcome_of(id) {
            self.failed_at(id, error)
        } else {
            self
        }
    }

    /// The context after a pause request.
    pub open spec fn pause(self) -> PlanContextView {
        if self.plan_state.is_active() {
            PlanContextView {
                plan_state: PlanStateView::Paused,
                resume_state: Some(self.plan_state),
                ..self
            }
        } else {
            self
        }
    }

    /// The context after a resume request.
    pub open spec fn resume(self) -> PlanContextView {
        if self.plan_state is Paused && self.resume_state is Some {
            PlanContextView { plan_state: self.resume_state->0, resume_state: None, ..self }
        } else {
            self
        }
    }

    /// The context after a cancel request.
    pub open spec fn cancel(self) -> PlanContextView {
        if self.plan_state.is_terminal() {
            self
        } else {
            PlanContextView {
                plan_state: PlanStateView::Failed(PlanErrorView::Cancelled.reason()),
                resume_state: None,
                ..self
            }
        }
    }

    /// What the run yields to its caller, once it is over.
    pub open spec fn result(
        self,
        request_id: Seq<char>,
        conversation_id: Seq<char>,
    ) -> Option<ExecutionResultView> {
        match self.plan_state {
            PlanStateView::Completed => Some(
                ExecutionResultView {
                    request_id,
                    conversation_id,
                    success: true,
                    output: self.final_outcome,
                },
            ),
            PlanStateView::Failed(reason) => Some(
                ExecutionResultView { request_id, conversation_id, success: false, output: reason },
            ),
            _ => None,
        }
    }
}

/// A copy of a list of tasks.
fn clone_tasks(tasks: &Option<Vec<TaskConfigInput>>) -> (copy: Option<Vec<TaskConfigInput>>)
    ensures
        copy.deep_view() == tasks.deep_view(),
{
    match tasks {
        None => None,
        Some(list) => {
            let mut copy: Vec<TaskConfigInput> = Vec::new();
            let mut k: usize = 0;
            while k < list.len()
                invariant
                    k <= list.len(),
                    copy.len() == k,
                    forall|j: int| 0 <= j < k ==> copy@[j].deep_view() == list@[j].deep_view(),
                decreases list.len() - k,
            {
                let t = &list[k];
                copy.push(
                    TaskConfigInput {
                        task_to_use: clone_opt(&t.task_to_use),
                        task_parameters: t.task_parameters.clone(),
                    },
                );
                k += 1;
            }
            assert(copy.deep_view() =~= list.deep_view());
            Some(copy)
        },
    }
}

/// What is asked for `node`.
pub fn dispatch(node: &Node) -> (action: Action)
    ensures
        action@ == dispatch_of(node@),
{
    let a = node.activity();
    match a.activity_type {
        ActivityType::DelegationAgent => Action::Delegate {
            node_id: node.id.clone(),
            task_description: a.description.clone(),
            skill_hint: match &a.skill_to_use {
                Some(skill) => skill.clone(),
                None => String::new(),
            },
        },
        ActivityType::DirectToolUse => Action::UseTool {
            node_id: node.id.clone(),
            tool_to_use: clone_opt(&a.tool_to_use),
            tool_parameters: clone_opt_document(&a.tool_parameters),
        },
        ActivityType::DirectTaskExecution => Action::RunTasks {
            node_id: node.id.clone(),
            tasks: clone_tasks(&a.tasks),
        },
    }
}

impl Graph {
    /// Sets the recorded result of node `i`.
    pub fn set_output(&mut self, i: usize, output: Option<String>)
        requires
            i < old(self).nodes.len(),
        ensures
            final(self)@ == old(self)@.with_output(i as int, opt_text(output)),
            final(self).nodes@.len() == old(self).nodes@.len(),
    {
        match &mut self.nodes[i].node_type {
            NodeType::Activity(a) => {
                a.activity_output = output;
            },
        }
        assert(self@.nodes =~= old(self)@.with_output(i as int, opt_text(output)).nodes);
    }

    /// Forgets the result of every node.
    pub fn clear_outputs(&mut self)
        ensures
            final(self)@ == old(self)@.cleared(),
    {
        let mut i: usize = 0;
        while i < self.nodes.len()
            invariant
                i <= self.nodes.len(),
                self@.nodes.len() == old(self)@.nodes.len(),
                self@.plan_name == old(self)@.plan_name,
                self@.edges == old(self)@.edges,
                forall|j: int|
                    0 <= j < i ==> self@.nodes[j] == old(self)@.nodes[j].with_output(None),
                forall|j: int| i <= j < self.nodes.len() ==> self@.nodes[j] == old(self)@.nodes[j],
            decreases self.nodes.len() - i,
        {
            self.set_output(i, None);
            i += 1;
        }
        assert(self@.nodes =~= old(self)@.cleared().nodes);
    }
}

impl PlanContext {
    /// Starts the run: `Idle` to `Initializing`.
    ///
    /// The graph is validated first. Where it is not what a successful
    /// compilation yields, the error is returned and the context stays idle
    /// and unchanged. Where it is, every earlier result is forgotten, the
    /// visitation order is fixed, and the query is kept. A context that is
    /// not idle is left as it is.
    pub fn start(&mut self, user_query: String) -> (started: Result<(), CompileError>)
        ensures
            final(self)@ == old(self)@.start(user_query@),
            started is Err <==> (old(self)@.plan_state is Idle && !old(self)@.graph.wf()),
            started is Err ==> Some(started->Err_0) == old(self)@.graph.refusal(),
    {
        match self.plan_state {
            PlanState::Idle => {},
            _ => {
                return Ok(());
            },
        }
        match self.graph.validate() {
            Err(e) => Err(e),
            Ok(order) => {
                self.graph.clear_outputs();
                self.plan_state = PlanState::Initializing;
                self.current_step_id = None;
                self.activities_outcome = crate::outcomes::Outcomes::new();
                self.final_outcome = String::new();
                self.user_query = user_query;
                self.visit_order = order;
                self.resume_state = None;
                Ok(())
            },
        }
    }

    /// Makes node `i` current and about to run.
    fn enter(&mut self, i: usize)
        requires
            i < old(self).graph.nodes.len(),
        ensures
            final(self)@ == old(self)@.enter(i),
    {
        self.current_step_id = Some(self.graph.nodes[i].id.clone());
        self.plan_state = PlanState::ExecutingStep;
    }

    /// The index of the current node, where the context names one.
    fn current_node(&self) -> (found: Option<usize>)
        ensures
            found is Some <==> self@.current_index() is Some,
            found is Some ==> found->0 as int == self@.current_index()->0,
            found is Some ==> found->0 < self.graph.nodes.len(),
            found is Some ==> self@.graph.nodes[found->0 as int].id == self@.current_step_id->0,
    {
        match &self.current_step_id {
            Some(id) => self.graph.find_node(id),
            None => None,
        }
    }

    /// Takes the next transition and says what is to be done outside.
    ///
    /// - `Initializing`, `DecidingNextStep`: the frontier is computed. Its
    ///   first node in visitation order becomes current (`ExecutingStep`).
    ///   With an empty frontier an initializing plan fails, and a deciding
    ///   plan completes with its final outcome.
    /// - `ExecutingStep`: the current node is dispatched. A delegation moves
    ///   to `AwaitingAgentResponse`; a node that is run directly stays.
    /// - `ProcessingAgentResponse`: moves to `DecidingNextStep`.
    /// - Any other state is left as it is.
    pub fn advance(&mut self) -> (action: Action)
        ensures
            final(self)@ == old(self)@.advance(),
            action@ == old(self)@.action(),
    {
        match self.plan_state {
            PlanState::Idle => Action::Await,
            PlanState::AwaitingAgentResponse => Action::Await,
            PlanState::Paused => Action::Await,
            PlanState::Completed => Action::Finished,
            PlanState::Failed(_) => Action::Finished,
            PlanState::Initializing => {
                match next_node(&self.graph, &self.activities_outcome, &self.visit_order) {
                    Some(i) => {
                        self.enter(i);
                    },
                    None => {
                        self.plan_state = PlanState::Failed(PlanError::EmptyFrontier.message());
                    },
                }
                Action::Continue
            },
            PlanState::ExecutingStep => {
                match self.current_node() {
                    Some(i) => {
                        let action = dispatch(&self.graph.nodes[i]);
                        match self.graph.nodes[i].activity().activity_type {
                            ActivityType::DelegationAgent => {
                                self.plan_state = PlanState::AwaitingAgentResponse;
                            },
                            _ => {},
                        }
                        action
                    },
                    None => {
                        self.plan_state = PlanState::Failed(
                            "internal: the current step names no node".to_string(),
                        );
                        Action::Continue
                    },
                }
            },
            PlanState::ProcessingAgentResponse => {
                self.plan_state = PlanState::DecidingNextStep;
                Action::Continue
            },
            PlanState::DecidingNextStep => {
                match next_node(&self.graph, &self.activities_outcome, &self.visit_order) {
                    Some(i) => {
                        self.enter(i);
                    },
                    None => {
                        self.final_outcome = aggregate(
                            &self.graph,
                            &self.activities_outcome,
                            &self.visit_order,
                        );
                        self.current_step_id = None;
                        self.plan_state = PlanState::Completed;
                    },
                }
                Action::Continue
            },
        }
    }

    /// The index of the current node, where the context awaits its result.
    fn awaited_node(&self) -> (found: Option<usize>)
        ensures
            found is Some <==> self@.accepts_result(),
            found is Some ==> found->0 as int == self@.current_index()->0,
            found is Some ==> found->0 < self.graph.nodes.len(),
            found is Some ==> self@.graph.nodes[found->0 as int].id == self@.current_step_id->0,
    {
        match self.current_node() {
            None => None,
            Some(i) => {
                if self.activities_outcome.contains_key(&self.graph.nodes[i].id) {
                    return None;
                }
                let awaited = match self.plan_state {
                    PlanState::AwaitingAgentResponse => true,
                    PlanState::ExecutingStep => {
                        match self.graph.nodes[i].activity().activity_type {
                            ActivityType::DelegationAgent => false,
                            _ => true,
                        }
                    },
                    _ => false,
                };
                if awaited {
                    Some(i)
                } else {
                    None
                }
            },
        }
    }

    /// Hands in the output of the current node: `ProcessingAgentResponse`.
    ///
    /// The output is recorded under the id of the node and at the node
    /// itself, once. It is accepted only where the context awaits it;
    /// otherwise nothing changes and `false` is returned.
    pub fn node_completed(&mut self, output: String) -> (accepted: bool)
        ensures
            accepted == old(self)@.accepts_result(),
            final(self)@ == old(self)@.node_completed(output@),
    {
        match self.awaited_node() {
            None => false,
            Some(i) => {
                let id = self.graph.nodes[i].id.clone();
                self.graph.set_output(i, Some(output.clone()));
                self.activities_outcome.record(id, output);
                self.plan_state = PlanState::ProcessingAgentResponse;
                true
            },
        }
    }

    /// Hands in the failure of the current node: the plan fails, with a
    /// reason that names the node and the error. Nothing is retried, and
    /// every outcome recorded so far stays. It is accepted only where the
    /// context awaits the result of the node; otherwise nothing changes and
    /// `false` is returned.
    pub fn node_failed(&mut self, error: ExecutionError) -> (accepted: bool)
        ensures
            accepted == old(self)@.accepts_result(),
            final(self)@ == old(self)@.node_failed(error@),
    {
        match self.awaited_node() {
            None => false,
            Some(i) => {
                let id = self.graph.nodes[i].id.clone();
                self.plan_state = PlanState::Failed(
                    PlanError::NodeExecutionFailed(id, error).message(),
                );
                true
            },
        }
    }

    /// Hands in what the capability returned for the current node.
    pub fn node_finished(&mut self, result: Result<String, ExecutionError>) -> (accepted: bool)
        ensures
            accepted == old(self)@.accepts_result(),
            result is Ok ==> final(self)@ == old(self)@.node_completed(result->Ok_0@),
            result is Err ==> final(self)@ == old(self)@.node_failed(result->Err_0@),
    {
        match result {
            Ok(output) => self.node_completed(output),
            Err(error) => self.node_failed(error),
        }
    }

    /// The index of the node `id`, where its outcome can be merged.
    fn mergeable_node(&self, id: &String) -> (found: Option<usize>)
        ensures
            found is Some <==> self@.accepts_outcome_of(id@),
            found is Some ==> found->0 as int == self@.graph.index_of(id@),
            found is Some ==> found->0 < self.graph.nodes.len(),
            found is Some ==> self@.graph.nodes[found->0 as int].id == id@,
    {
        match self.plan_state {
            PlanState::ExecutingStep => {},
            PlanState::AwaitingAgentResponse => {},
            _ => {
                return None;
            },
        }
        match self.graph.find_node(id) {
            None => None,
            Some(i) => {
                if is_eligible(&self.graph, &self.activities_outcome, i) {
                    Some(i)
                } else {
                    None
                }
            },
        }
    }

    /// Merges the output of the node `node_id`, as a worker of a pool
    /// reports it: `ProcessingAgentResponse`, with that node as the current
    /// one.
    ///
    /// Completions are merged one at a time, in whatever order they arrive.
    /// One is accepted where the run is executing or awaiting and the node
    /// may run: it is a node of the graph, it has no outcome yet, and every
    /// inbound edge is satisfied. Otherwise nothing changes and `false` is
    /// returned; so a completion that arrives after a cancellation or a
    /// failure is discarded.
    pub fn merge_completed(&mut self, node_id: &String, output: String) -> (accepted: bool)
        ensures
            accepted == old(self)@.accepts_outcome_of(node_id@),
            final(self)@ == old(self)@.merge_completed(node_id@, output@),
    {
        match self.mergeable_node(node_id) {
            None => false,
            Some(i) => {
                let id = self.graph.nodes[i].id.clone();
                self.current_step_id = Some(node_id.clone());
                self.graph.set_output(i, Some(output.clone()));
                self.activities_outcome.record(id, output);
                self.plan_state = PlanState::ProcessingAgentResponse;
                true
            },
        }
    }

    /// Merges the failure of the node `node_id`, as a worker of a pool
    /// reports it: the plan fails, with a reason that names the node and the
    /// error, and every outcome recorded so far stays. It is accepted where
    /// the output of the node would be.
    pub fn merge_failed(&mut self, node_id: &String, error: ExecutionError) -> (accepted: bool)
        ensures
            accepted == old(self)@.accepts_outcome_of(node_id@),
            final(self)@ == old(self)@.merge_failed(node_id@, error@),
    {
        match self.mergeable_node(node_id) {
            None => false,
            Some(i) => {
                let id = self.graph.nodes[i].id.clone();
                self.current_step_id = Some(node_id.clone());
                self.plan_state = PlanState::Failed(
                    PlanError::NodeExecutionFailed(id, error).message(),
                );
                true
            },
        }
    }

    /// Merges what a worker of a pool returned for the node `node_id`.
    pub fn merge(&mut self, node_id: &String, result: Result<String, ExecutionError>) -> (accepted:
        bool)
        ensures
            accepted == old(self)@.accepts_outcome_of(node_id@),
            result is Ok ==> final(self)@ == old(self)@.merge_completed(node_id@, result->Ok_0@),
            result is Err ==> final(self)@ == old(self)@.merge_failed(node_id@, result->Err_0@),
    {
        match result {
            Ok(output) => self.merge_completed(node_id, output),
            Err(error) => self.merge_failed(node_id, error),
        }
    }

    /// Pauses a run that is under way, and remembers the state it left.
    pub fn pause(&mut self) -> (paused: bool)
        ensures
            paused == old(self)@.plan_state.is_active(),
            final(self)@ == old(self)@.pause(),
    {
        if !self.plan_state.is_active() {
            return false;
        }
        let mut left = PlanState::Paused;
        core::mem::swap(&mut self.plan_state, &mut left);
        self.resume_state = Some(left);
        true
    }

    /// Resumes a paused run in the state that the pause left. The current
    /// node stays what it was.
    pub fn resume(&mut self) -> (resumed: bool)
        ensures
            resumed == (old(self)@.plan_state is Paused && old(self)@.resume_state is Some),
            final(self)@ == old(self)@.resume(),
    {
        match self.plan_state {
            PlanState::Paused => {},
            _ => {
                return false;
            },
        }
        let mut left: Option<PlanState> = None;
        core::mem::swap(&mut self.resume_state, &mut left);
        match left {
            Some(state) => {
                self.plan_state = state;
                true
            },
            None => false,
        }
    }

    /// Cancels a run that is not over: the plan fails with the reason
    /// `cancelled`. No further node is admitted; what was recorded stays.
    pub fn cancel(&mut self) -> (cancelled: bool)
        ensures
            cancelled == !old(self)@.plan_state.is_terminal(),
            final(self)@ == old(self)@.cancel(),
    {
        if self.plan_state.is_terminal() {
            return false;
        }
        self.plan_state = PlanState::Failed(PlanError::Cancelled.message());
        self.resume_state = None;
        true
    }

    /// What the run yields to its caller: nothing while it is not over; the
    /// final outcome of a completed plan, as a success; the reason of a
    /// failed plan, as a failure.
    pub fn execution_result(&self, request_id: String, conversation_id: String) -> (result: Option<
        ExecutionResult,
    >)
        ensures
            result is Some <==> self@.plan_state.is_terminal(),
            result is Some ==> Some(result->0@) == self@.result(request_id@, conversation_id@),
            result is None ==> self@.result(request_id@, conversation_id@) is None,
    {
        match &self.plan_state {
            PlanState::Completed => Some(
                ExecutionResult {
                    request_id,
                    conversation_id,
                    success: true,
                    output: self.final_outcome.clone(),
                },
            ),
            PlanState::Failed(reason) => Some(
                ExecutionResult {
                    request_id,
                    conversation_id,
                    success: false,
                    output: reason.clone(),
                },
            ),
            _ => None,
        }
    }
}

} // verus!
