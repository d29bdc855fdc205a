//! The run-time state of one plan execution.

use vstd::prelude::*;
use crate::graph::{Graph, GraphView};
use crate::outcomes::Outcomes;
use crate::text::opt_text;

verus! {

/// Where a plan run stands.
#[derive(Debug, Clone, PartialEq, Eq, Hash)]
pub enum PlanState {
    Idle,
    Initializing,
    ExecutingStep,
    AwaitingAgentResponse,
    ProcessingAgentResponse,
    DecidingNextStep,
    Paused,
    Completed,
    Failed(String),
}

pub enum PlanStateView {
    Idle,
    Initializing,
    ExecutingStep,
    AwaitingAgentResponse,
    ProcessingAgentResponse,
    DecidingNextStep,
    Paused,
    Completed,
    Failed(Seq<char>),
}

impl PlanStateView {
    /// The run is under way: started, not paused, not over.
    pub open spec fn is_active(self) -> bool {
        self is Initializing || self is ExecutingStep || self is AwaitingAgentResponse
            || self is ProcessingAgentResponse || self is DecidingNextStep
    }

    /// The run is over.
    pub open spec fn is_terminal(self) -> bool {
        self is Completed || self is Failed
    }
}

impl DeepView for PlanState {
    type V = PlanStateView;

    open spec fn deep_view(&self) -> PlanStateView {
        match self {
            PlanState::Idle => PlanStateView::Idle,
            PlanState::Initializing => PlanStateView::Initializing,
            PlanState::ExecutingStep => PlanStateView::ExecutingStep,
            PlanState::AwaitingAgentResponse => PlanStateView::AwaitingAgentResponse,
            PlanState::ProcessingAgentResponse => PlanStateView::ProcessingAgentResponse,
            PlanState::DecidingNextStep => PlanStateView::DecidingNextStep,
            PlanState::Paused => PlanStateView::Paused,
            PlanState::Completed => PlanStateView::Completed,
            PlanState::Failed(reason) => PlanStateView::Failed(reason@),
        }
    }
}

impl View for PlanState {
    type V = PlanStateView;

    open spec fn view(&self) -> PlanStateView {
        self.deep_view()
    }
}

impl PlanState {
    /// Whether the run is under way.
    pub fn is_active(&self) -> (active: bool)
        ensures
            active == self@.is_active(),
    {
        match self {
            PlanState::Initializing => true,
            PlanState::ExecutingStep => true,
            PlanState::AwaitingAgentResponse => true,
            PlanState::ProcessingAgentResponse => true,
            PlanState::DecidingNextStep => true,
            _ => false,
        }
    }

    /// Whether the run is over.
    pub fn is_terminal(&self) -> (over: bool)
        ensures
            over == self@.is_terminal(),
    {
        match self {
            PlanState::Completed => true,
            PlanState::Failed(_) => true,
            _ => false,
        }
    }
}

/// The state of one plan run. Only the coordinator's transitions change it.
#[derive(Debug, Clone)]
pub struct PlanContext {
    pub plan_state: PlanState,
    pub graph: Graph,
    /// The id of the node that is being run, if any.
    pub current_step_id: Option<String>,
    /// The output of every node that has run, written once per node.
    pub activities_outcome: Outcomes,
    /// Empty until the plan has completed.
    pub final_outcome: String,
    pub user_query: String,
    /// The order in which nodes are visited, as node indices: the tie-break
    /// among nodes that may run. Set when the run starts.
    pub visit_order: Vec<usize>,
    /// The state that a pause left, while the run is paused.
    pub resume_state: Option<PlanState>,
}

pub struct PlanContextView {
    pub plan_state: PlanStateView,
    pub graph: GraphView,
    pub current_step_id: Option<Seq<char>>,
    pub activities_outcome: Map<Seq<char>, Seq<char>>,
    pub final_outcome: Seq<char>,
    pub user_query: Seq<char>,
    pub visit_order: Seq<usize>,
    pub resume_state: Option<PlanStateView>,
}

impl View for PlanContext {
    type V = PlanContextView;

    open spec fn view(&self) -> PlanContextView {
        PlanContextView {
            plan_state: self.plan_state@,
            graph: self.graph@,
            current_step_id: opt_text(self.current_step_id),
            activities_outcome: self.activities_outcome@,
            final_outcome: self.final_outcome@,
            user_query: self.user_query@,
            visit_order: self.visit_order@,
            resume_state: self.resume_state.deep_view(),
        }
    }
}

impl PlanContext {
    /// A context for one run of `graph`, idle until the run is started.
    pub fn new(graph: Graph, user_query: String) -> (context: PlanContext)
        ensures
            context@.plan_state is Idle,
            context@.graph == graph@,
            context@.current_step_id is None,
            context@.activities_outcome == Map::<Seq<char>, Seq<char>>::empty(),
            context@.final_outcome == Seq::<char>::empty(),
            context@.user_query == user_query@,
            context@.visit_order == Seq::<usize>::empty(),
            context@.resume_state is None,
    {
        PlanContext {
            plan_state: PlanState::Idle,
            graph,
            current_step_id: None,
            activities_outcome: Outcomes::new(),
            final_outcome: String::new(),
            user_query,
            visit_order: Vec::new(),
            resume_state: None,
        }
    }
}

/// The earlier shape of a plan context, which tracks results per step and no
/// final outcome.
#[derive(Debug, Clone)]
pub struct PlanContextOld {
    pub plan_state: PlanState,
    pub graph: Graph,
    pub current_step_id: Option<String>,
    pub results: Outcomes,
    pub user_query: String,
}

impl PlanContextOld {
    /// A context for one run of `graph`, idle and with no result.
    pub fn new(graph: Graph, user_query: String) -> (context: PlanContextOld)
        ensures
            context.plan_state@ is Idle,
            context.graph@ == graph@,
            context.current_step_id is None,
            context.results@ == Map::<Seq<char>, Seq<char>>::empty(),
            context.user_query@ == user_query@,
    {
        PlanContextOld {
            plan_state: PlanState::Idle,
            graph,
            current_step_id: None,
            results: Outcomes::new(),
            user_query,
        }
    }
}

} // verus!
