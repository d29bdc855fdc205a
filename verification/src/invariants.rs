//! What holds of every plan run: the invariant of the context, and the laws
//! that every transition of the coordinator obeys.

use vstd::prelude::*;
use crate::aggregator::final_outcome_of;
use crate::context::{PlanContextView, PlanStateView};
use crate::error::ExecutionErrorView;
use crate::graph::{first_index, is_first, lemma_first_index, node_is, GraphView};
use crate::resolver::{eligible, frontier_of, inbound, lemma_frontier_members};

verus! {

impl GraphView {
    /// In a graph whose edges all join nodes, the precedence relation over
    /// indices is well formed.
    pub proof fn lemma_links_wf(self)
        requires
            self.endpoints_declared(),
        ensures
            self.links().wf(),
    {
        assert forall|e: int| 0 <= e < self.links().sources.len() implies #[trigger] self.links().sources[e]
            < self.links().node_count by {
            assert(self.has_node(self.edges[e].source));
            lemma_first_index(self.nodes, self.edges[e].source);
        }
        assert forall|e: int| 0 <= e < self.links().targets.len() implies #[trigger] self.links().targets[e]
            < self.links().node_count by {
            assert(self.has_node(self.edges[e].target));
            lemma_first_index(self.nodes, self.edges[e].target);
        }
    }

    /// Where no id occurs twice, a node is found under its own id.
    pub proof fn lemma_index_of_own_id(self, i: int)
        requires
            self.ids_distinct(),
            0 <= i < self.nodes.len(),
        ensures
            self.has_node(self.nodes[i].id),
            self.index_of(self.nodes[i].id) == i,
    {
        let id = self.nodes[i].id;
        assert(node_is(self.nodes, i, id));
        lemma_first_index(self.nodes, id);
        let f = first_index(self.nodes, id);
        assert(is_first(self.nodes, f, id));
        if f < i {
            assert(self.nodes[f].id != self.nodes[i].id);
        }
    }
}

impl PlanContextView {
    /// What is recorded at the nodes mirrors the outcome map: only nodes of
    /// the graph have an outcome, and a node holds a result exactly when its
    /// id has an outcome, which is that result.
    pub open spec fn consistent(self) -> bool {
        &&& forall|id: Seq<char>| #[trigger]
            self.activities_outcome.dom().contains(id) ==> self.graph.has_node(id)
        &&& forall|i: int|
            0 <= i < self.graph.nodes.len() ==> (#[trigger] self.graph.nodes[i]).output() == (
            if self.activities_outcome.dom().contains(self.graph.nodes[i].id) {
                Some(self.activities_outcome[self.graph.nodes[i].id])
            } else {
                None
            })
    }

    /// The current node is a node of the graph that may run.
    pub open spec fn current_may_run(self) -> bool {
        &&& self.current_index() is Some
        &&& eligible(self.graph, self.activities_outcome, self.current_index()->0)
    }

    /// What holds in the state `state` of a run.
    pub open spec fn holds_in(self, state: PlanStateView) -> bool {
        match state {
            PlanStateView::Idle => false,
            PlanStateView::Paused => false,
            PlanStateView::Initializing => true,
            PlanStateView::ExecutingStep => self.current_may_run(),
            PlanStateView::AwaitingAgentResponse => self.current_may_run()
                && self.graph.nodes[self.current_index()->0].activity().activity_type
                is DelegationAgent,
            PlanStateView::ProcessingAgentResponse => self.current_step_id is Some
                && self.activities_outcome.dom().contains(self.current_step_id->0),
            PlanStateView::DecidingNextStep => true,
            PlanStateView::Completed => {
                &&& forall|i: int| !eligible(self.graph, self.activities_outcome, i)
                &&& self.final_outcome == final_outcome_of(
                    self.graph,
                    self.activities_outcome,
                    self.visit_order,
                )
            },
            PlanStateView::Failed(_) => true,
        }
    }

    /// The invariant of a plan run. An idle or failed context is bound by
    /// nothing. In every other state the graph is well formed, the
    /// visitation order is its canonical topological order, the results at
    /// the nodes mirror the outcome map, and what the state stands for holds;
    /// a paused context keeps what held in the state that the pause left.
    pub open spec fn inv(self) -> bool {
        self.plan_state is Idle || self.plan_state is Failed || {
            &&& self.graph.wf()
            &&& self.graph.links().is_canonical(self.visit_order)
            &&& self.consistent()
            &&& if self.plan_state is Paused {
                self.resume_state is Some && self.resume_state->0.is_active() && self.holds_in(
                    self.resume_state->0,
                )
            } else {
                self.resume_state is None && self.holds_in(self.plan_state)
            }
        }
    }

    /// `later` keeps every outcome of this context: what was written stays
    /// written, with the same output.
    pub open spec fn outcomes_kept_by(self, later: PlanContextView) -> bool {
        forall|id: Seq<char>| #[trigger]
            self.activities_outcome.dom().contains(id) ==> later.activities_outcome.dom().contains(
                id,
            ) && later.activities_outcome[id] == self.activities_outcome[id]
    }

    /// A new context is idle, so the invariant holds of it.
    pub proof fn lemma_idle_inv(self)
        requires
            self.plan_state is Idle,
        ensures
            self.inv(),
    {
    }

    /// The first node of a non-empty frontier is a node that may run, and it
    /// is found under its own id.
    proof fn lemma_next_may_run(self)
        requires
            self.graph.wf(),
            self.next() is Some,
        ensures
            eligible(self.graph, self.activities_outcome, self.next()->0 as int),
            self.graph.has_node(self.graph.nodes[self.next()->0 as int].id),
            self.graph.index_of(self.graph.nodes[self.next()->0 as int].id) == self.next()->0,
            self.enter(self.next()->0).current_may_run(),
    {
        let i = self.next()->0;
        let f = frontier_of(self.graph, self.activities_outcome, self.visit_order);
        assert(f[0] == i);
        assert(f.contains(i));
        lemma_frontier_members(self.graph, self.activities_outcome, self.visit_order, i);
        self.graph.lemma_index_of_own_id(i as int);
    }

    /// Where the frontier is empty and the order holds every node, no node
    /// may run.
    proof fn lemma_none_may_run(self)
        requires
            self.graph.wf(),
            self.graph.links().is_canonical(self.visit_order),
            self.next() is None,
        ensures
            forall|i: int| !eligible(self.graph, self.activities_outcome, i),
    {
        self.graph.lemma_links_wf();
        self.graph.links().lemma_canonical_is_topological(self.visit_order);
        let f = frontier_of(self.graph, self.activities_outcome, self.visit_order);
        assert forall|i: int| !eligible(self.graph, self.activities_outcome, i) by {
            if eligible(self.graph, self.activities_outcome, i) {
                let u = i as usize;
                assert(self.visit_order.contains(u));
                lemma_frontier_members(self.graph, self.activities_outcome, self.visit_order, u);
                assert(f.contains(u));
            }
        }
    }

    /// `start` establishes the invariant, and keeps it where it changes
    /// nothing.
    pub proof fn lemma_start_inv(self, user_query: Seq<char>)
        requires
            self.inv(),
        ensures
            self.start(user_query).inv(),
    {
        if self.plan_state is Idle && self.graph.wf() {
            self.graph.lemma_same_structure(self.graph.cleared());
            self.graph.lemma_links_wf();
            self.graph.links().lemma_acyclic_has_canonical();
        }
    }

    /// `advance` keeps the invariant.
    pub proof fn lemma_advance_inv(self)
        requires
            self.inv(),
        ensures
            self.advance().inv(),
    {
        match self.plan_state {
            PlanStateView::Initializing => {
                if self.next() is Some {
                    self.lemma_next_may_run();
                }
            },
            PlanStateView::DecidingNextStep => {
                if self.next() is Some {
                    self.lemma_next_may_run();
                } else {
                    self.lemma_none_may_run();
                }
            },
            _ => {},
        }
    }

    /// Recording an output for a node that has none keeps the graph well
    /// formed and the results at the nodes in step with the outcome map.
    proof fn lemma_recorded(self, id: Seq<char>, output: Seq<char>)
        requires
            self.graph.wf(),
            self.graph.links().is_canonical(self.visit_order),
            self.consistent(),
            self.graph.has_node(id),
            !self.activities_outcome.dom().contains(id),
        ensures
            self.recorded(id, output).graph.wf(),
            self.recorded(id, output).graph.links().is_canonical(self.visit_order),
            self.recorded(id, output).consistent(),
    {
        let after = self.recorded(id, output);
        let i = self.graph.index_of(id);
        lemma_first_index(self.graph.nodes, id);
        assert(self.graph.nodes[i].id == id);
        self.graph.lemma_same_structure(after.graph);
        assert forall|j: int| 0 <= j < after.graph.nodes.len() implies (
        #[trigger] after.graph.nodes[j]).output() == (if after.activities_outcome.dom().contains(
            after.graph.nodes[j].id,
        ) {
            Some(after.activities_outcome[after.graph.nodes[j].id])
        } else {
            None
        }) by {
            if j != i {
                assert(self.graph.nodes[j].id != self.graph.nodes[i].id);
                assert(after.graph.nodes[j] == self.graph.nodes[j]);
            }
        }
        assert forall|k: Seq<char>| #[trigger]
            after.activities_outcome.dom().contains(k) implies after.graph.has_node(k) by {
            if k != id {
                assert(self.activities_outcome.dom().contains(k));
            }
        }
    }

    /// Recording the output of the current node keeps the invariant.
    pub proof fn lemma_node_completed_inv(self, output: Seq<char>)
        requires
            self.inv(),
        ensures
            self.node_completed(output).inv(),
    {
        if self.accepts_result() {
            self.lemma_recorded(self.current_step_id->0, output);
        }
    }

    /// Merging the output of a node keeps the invariant.
    pub proof fn lemma_merge_completed_inv(self, id: Seq<char>, output: Seq<char>)
        requires
            self.inv(),
        ensures
            self.merge_completed(id, output).inv(),
    {
        if self.accepts_outcome_of(id) {
            lemma_first_index(self.graph.nodes, id);
            self.lemma_recorded(id, output);
        }
    }

    /// Merging the failure of a node keeps the invariant.
    pub proof fn lemma_merge_failed_inv(self, id: Seq<char>, error: ExecutionErrorView)
        requires
            self.inv(),
        ensures
            self.merge_failed(id, error).inv(),
    {
    }

    /// Reporting the current node through `merge` is reporting it through
    /// `node_completed`, where both are accepted.
    pub proof fn lemma_merge_of_current(self, output: Seq<char>)
        requires
            self.inv(),
            self.accepts_result(),
        ensures
            self.accepts_outcome_of(self.current_step_id->0),
            self.merge_completed(self.current_step_id->0, output) == self.node_completed(output),
    {
    }

    /// The failure of the current node keeps the invariant.
    pub proof fn lemma_node_failed_inv(self, error: ExecutionErrorView)
        requires
            self.inv(),
        ensures
            self.node_failed(error).inv(),
    {
    }

    /// `pause` keeps the invariant.
    pub proof fn lemma_pause_inv(self)
        requires
            self.inv(),
        ensures
            self.pause().inv(),
    {
    }

    /// `resume` keeps the invariant.
    pub proof fn lemma_resume_inv(self)
        requires
            self.inv(),
        ensures
            self.resume().inv(),
    {
    }

    /// `cancel` keeps the invariant.
    pub proof fn lemma_cancel_inv(self)
        requires
            self.inv(),
        ensures
            self.cancel().inv(),
    {
    }

    /// Outcomes are written once: no transition but `start` removes or
    /// changes one, whether the plan goes on, completes or fails.
    pub proof fn lemma_outcomes_written_once(self, output: Seq<char>, error: ExecutionErrorView)
        ensures
            self.outcomes_kept_by(self.advance()),
            self.outcomes_kept_by(self.node_completed(output)),
            self.outcomes_kept_by(self.node_failed(error)),
            forall|id: Seq<char>| self.outcomes_kept_by(#[trigger] self.merge_completed(id, output)),
            forall|id: Seq<char>| self.outcomes_kept_by(#[trigger] self.merge_failed(id, error)),
            self.outcomes_kept_by(self.pause()),
            self.outcomes_kept_by(self.resume()),
            self.outcomes_kept_by(self.cancel()),
    {
        assert forall|id: Seq<char>|
            self.outcomes_kept_by(#[trigger] self.merge_completed(id, output)) by {
            if self.accepts_outcome_of(id) {
                lemma_first_index(self.graph.nodes, id);
            }
        }
    }

    /// A result recorded at a node is never overwritten: under the
    /// invariant, recording an output leaves the result of every node that
    /// had one as it was.
    pub proof fn lemma_output_written_once(self, output: Seq<char>, i: int)
        requires
            self.inv(),
            0 <= i < self.graph.nodes.len(),
            self.graph.nodes[i].output() is Some,
        ensures
            self.node_completed(output).graph.nodes[i].output() == self.graph.nodes[i].output(),
    {
        if self.accepts_result() {
            let at = self.current_index()->0;
            let id = self.current_step_id->0;
            lemma_first_index(self.graph.nodes, id);
            assert(self.graph.nodes[at].id == id);
        }
    }

    /// No transition changes the structure of the graph: its name, its node
    /// ids and its edges stay; only results are recorded at the nodes.
    pub proof fn lemma_structure_kept(
        self,
        user_query: Seq<char>,
        output: Seq<char>,
        error: ExecutionErrorView,
    )
        ensures
            self.graph.same_structure(self.start(user_query).graph),
            self.graph.same_structure(self.advance().graph),
            self.graph.same_structure(self.node_completed(output).graph),
            self.graph.same_structure(self.node_failed(error).graph),
            forall|id: Seq<char>|
                self.graph.same_structure((#[trigger] self.merge_completed(id, output)).graph),
            forall|id: Seq<char>|
                self.graph.same_structure((#[trigger] self.merge_failed(id, error)).graph),
            self.graph.same_structure(self.pause().graph),
            self.graph.same_structure(self.resume().graph),
            self.graph.same_structure(self.cancel().graph),
    {
        if self.accepts_result() {
            lemma_first_index(self.graph.nodes, self.current_step_id->0);
        }
        assert forall|id: Seq<char>|
            self.graph.same_structure((#[trigger] self.merge_completed(id, output)).graph) by {
            if self.accepts_outcome_of(id) {
                lemma_first_index(self.graph.nodes, id);
            }
        }
    }

    /// `Completed` and `Failed` are terminal: no transition leaves them or
    /// changes anything.
    pub proof fn lemma_terminal_stays(
        self,
        user_query: Seq<char>,
        output: Seq<char>,
        error: ExecutionErrorView,
    )
        requires
            self.plan_state.is_terminal(),
        ensures
            self.start(user_query) == self,
            self.advance() == self,
            self.node_completed(output) == self,
            self.node_failed(error) == self,
            forall|id: Seq<char>| #[trigger] self.merge_completed(id, output) == self,
            forall|id: Seq<char>| #[trigger] self.merge_failed(id, error) == self,
            self.pause() == self,
            self.resume() == self,
            self.cancel() == self,
    {
    }

    /// A pause followed by a resume leaves a run where it was, with the same
    /// current node.
    pub proof fn lemma_pause_resume(self)
        requires
            self.inv(),
            self.plan_state.is_active(),
        ensures
            self.pause().plan_state is Paused,
            self.pause().resume() == self,
    {
    }

    /// In a completed plan every node has either run or is held back by an
    /// inbound edge that is not satisfied. So every node without inbound
    /// edges has run, in whatever order the nodes were dispatched.
    pub proof fn lemma_completed_ran_every_free_node(self, i: int)
        requires
            self.inv(),
            self.plan_state is Completed,
            0 <= i < self.graph.nodes.len(),
        ensures
            self.activities_outcome.dom().contains(self.graph.nodes[i].id) || exists|e: int|
                inbound(self.graph, e, i) && !crate::resolver::edge_satisfied(
                    self.graph,
                    self.activities_outcome,
                    e,
                ),
            (forall|e: int| !inbound(self.graph, e, i)) ==> self.activities_outcome.dom().contains(
                self.graph.nodes[i].id,
            ),
            self.final_outcome == final_outcome_of(
                self.graph,
                self.activities_outcome,
                self.visit_order,
            ),
    {
        assert(!eligible(self.graph, self.activities_outcome, i));
    }
}

/// A graph of one node and no edge is well formed, and its canonical order
/// is that node.
pub proof fn lemma_single_node_graph(g: GraphView)
    requires
        g.nodes.len() == 1,
        g.edges.len() == 0,
    ensures
        g.wf(),
        g.links().canonical_order() == seq![0usize],
{
    let links = g.links();
    let order = seq![0usize];
    assert(links.sources.len() == 0 && links.targets.len() == 0);
    assert(order.take(0) =~= Seq::<usize>::empty());
    assert(links.is_canonical(order)) by {
        assert forall|p: int| 0 <= p < order.len() implies links.least_placeable(
            #[trigger] order.take(p),
            order[p],
        ) by {
            assert(p == 0);
            assert(!order.take(0).contains(0usize));
        }
    }
    links.lemma_canonical_is_topological(order);
    links.lemma_canonical_unique(order);
}

/// A plan of one node without dependencies runs from `Idle` through
/// `Initializing`, `ExecutingStep`, `ProcessingAgentResponse` and
/// `DecidingNextStep` to `Completed`, and its final outcome is the output of
/// its node. A node that is delegated awaits the agent after it is
/// dispatched; a node that is run directly does not.
pub proof fn lemma_single_node_run(c: PlanContextView, user_query: Seq<char>, output: Seq<char>)
    requires
        c.plan_state is Idle,
        c.graph.nodes.len() == 1,
        c.graph.edges.len() == 0,
    ensures
        ({
            let id = c.graph.nodes[0].id;
            let delegated = c.graph.nodes[0].activity().activity_type is DelegationAgent;
            let initializing = c.start(user_query);
            let executing = initializing.advance();
            let dispatched = executing.advance();
            let processing = dispatched.node_completed(output);
            let deciding = processing.advance();
            let completed = deciding.advance();
            &&& initializing.plan_state is Initializing
            &&& executing.plan_state is ExecutingStep
            &&& executing.current_step_id == Some(id)
            &&& delegated ==> dispatched.plan_state is AwaitingAgentResponse
            &&& !delegated ==> dispatched.plan_state is ExecutingStep
            &&& processing.plan_state is ProcessingAgentResponse
            &&& processing.activities_outcome == Map::<Seq<char>, Seq<char>>::empty().insert(
                id,
                output,
            )
            &&& deciding.plan_state is DecidingNextStep
            &&& completed.plan_state is Completed
            &&& completed.final_outcome == output
            &&& completed.activities_outcome == processing.activities_outcome
        }),
{
    let id = c.graph.nodes[0].id;
    lemma_single_node_graph(c.graph);
    let initializing = c.start(user_query);
    let g = initializing.graph;
    assert(g.nodes[0].id == id);
    c.graph.lemma_same_structure(g);
    let order = seq![0usize];
    assert(initializing.visit_order == order);
    let none = Map::<Seq<char>, Seq<char>>::empty();
    assert(eligible(g, none, 0));
    assert(order.filter(crate::resolver::eligible_at(g, none)) =~= order) by {
        reveal_with_fuel(Seq::filter, 2);
        assert(order.drop_last() =~= Seq::<usize>::empty());
        assert(crate::resolver::eligible_at(g, none)(order.last()));
    }
    assert(initializing.next() == Some(0usize));
    let executing = initializing.advance();
    g.lemma_index_of_own_id(0);
    assert(executing.current_index() == Some(0int));
    let dispatched = executing.advance();
    assert(dispatched.current_index() == Some(0int));
    assert(dispatched.accepts_result());
    let processing = dispatched.node_completed(output);
    let done = processing.activities_outcome;
    let g2 = processing.graph;
    assert(g2.nodes[0].id == id);
    let deciding = processing.advance();
    assert(!eligible(g2, done, 0));
    assert(order.filter(crate::resolver::eligible_at(g2, done)) =~= Seq::<usize>::empty()) by {
        reveal_with_fuel(Seq::filter, 2);
        assert(order.drop_last() =~= Seq::<usize>::empty());
        assert(!crate::resolver::eligible_at(g2, done)(order.last()));
    }
    assert(deciding.next() is None);
    assert(crate::aggregator::executed_terminal(g2, done, 0));
    assert(order.filter(crate::aggregator::executed_terminal_at(g2, done)) =~= order) by {
        reveal_with_fuel(Seq::filter, 2);
        assert(order.drop_last() =~= Seq::<usize>::empty());
        assert(crate::aggregator::executed_terminal_at(g2, done)(order.last()));
    }
}

} // verus!
