//! The plan compiler: from a plan document to a validated dependency graph.

use vstd::prelude::*;
use crate::error::CompileError;
use crate::graph::{
    distinct_ids, find_id, has_id, node_is, Activity, ActivityView, Edge, EdgeView, Graph,
    GraphView, Node, NodeType, NodeTypeView, NodeView,
};
use crate::plan::{
    ActivityInput, ActivityInputView, DependencyView, WorkflowPlanInput, WorkflowPlanInputView,
};
use crate::text::clone_opt;

verus! {

/// The activity that a plan entry compiles to: the agent block and the first
/// tool are flattened into it, tasks and dependencies are carried through, and
/// no result is recorded yet.
pub open spec fn activity_of(a: ActivityInputView) -> ActivityView {
    ActivityView {
        activity_type: a.activity_type,
        id: a.id,
        description: a.description,
        kind: Some(a.kind),
        skill_to_use: if a.agent is Some { a.agent->0.skill_to_use } else { None },
        assigned_agent_id_preference: if a.agent is Some {
            a.agent->0.assigned_agent_id_preference
        } else {
            None
        },
        agent_context: if a.agent is Some { a.agent->0.agent_context } else { None },
        tool_to_use: if a.tools is Some && a.tools->0.len() > 0 {
            a.tools->0[0].tool_to_use
        } else {
            None
        },
        tool_parameters: if a.tools is Some && a.tools->0.len() > 0 {
            Some(a.tools->0[0].tool_parameters)
        } else {
            None
        },
        tasks: a.tasks,
        dependencies: a.dependencies,
        expected_outcome: Some(a.expected_outcome),
        activity_output: None,
    }
}

/// The node that a plan entry compiles to.
pub open spec fn node_of(a: ActivityInputView) -> NodeView {
    NodeView { id: a.id, node_type: NodeTypeView::Activity(activity_of(a)) }
}

/// The edge that dependency `d` of the activity `target` compiles to.
pub open spec fn edge_of(d: DependencyView, target: Seq<char>) -> EdgeView {
    EdgeView { source: d.source, target: target, condition: d.condition }
}

/// The inbound edges of one plan entry, one per dependency, in order.
pub open spec fn edges_of_activity(a: ActivityInputView) -> Seq<EdgeView> {
    Seq::new(a.dependencies.len(), |k: int| edge_of(a.dependencies[k], a.id))
}

/// The edges of a plan: the inbound edges of each entry, in declaration order.
pub open spec fn edges_of(acts: Seq<ActivityInputView>) -> Seq<EdgeView>
    decreases acts.len(),
{
    if acts.len() == 0 {
        Seq::empty()
    } else {
        edges_of(acts.drop_last()) + edges_of_activity(acts.last())
    }
}

/// The number of dependencies that a plan declares.
pub open spec fn total_dependencies(acts: Seq<ActivityInputView>) -> nat
    decreases acts.len(),
{
    if acts.len() == 0 {
        0
    } else {
        total_dependencies(acts.drop_last()) + acts.last().dependencies.len()
    }
}

/// `nodes` with `n` put under its id: in place of the node that has that id,
/// or at the end where none has it.
pub open spec fn put_node(nodes: Seq<NodeView>, n: NodeView) -> Seq<NodeView> {
    if has_id(nodes, n.id) {
        nodes.update(choose|i: int| node_is(nodes, i, n.id), n)
    } else {
        nodes.push(n)
    }
}

/// The nodes of a plan: one per distinct activity id, in order of first
/// declaration; where an id is declared more than once the last entry stands.
pub open spec fn nodes_of(acts: Seq<ActivityInputView>) -> Seq<NodeView>
    decreases acts.len(),
{
    if acts.len() == 0 {
        Seq::empty()
    } else {
        put_node(nodes_of(acts.drop_last()), node_of(acts.last()))
    }
}

/// The graph that a plan flattens to, before any validation.
pub open spec fn flatten(plan: WorkflowPlanInputView) -> GraphView {
    GraphView {
        plan_name: plan.plan_name,
        nodes: nodes_of(plan.activities),
        edges: edges_of(plan.activities),
    }
}

/// Entry `k` of the plan declares the id `id`.
pub open spec fn declares_at(acts: Seq<ActivityInputView>, k: int, id: Seq<char>) -> bool {
    0 <= k < acts.len() && acts[k].id == id
}

/// Some entry of the plan declares the id `id`.
pub open spec fn declares(acts: Seq<ActivityInputView>, id: Seq<char>) -> bool {
    exists|k: int| declares_at(acts, k, id)
}

/// No two entries of the plan declare the same id.
pub open spec fn plan_ids_distinct(acts: Seq<ActivityInputView>) -> bool {
    forall|i: int, j: int| 0 <= i < j < acts.len() ==> acts[i].id != acts[j].id
}

/// A plan has as many edges as it declares dependencies.
pub proof fn lemma_edges_len(acts: Seq<ActivityInputView>)
    ensures
        edges_of(acts).len() == total_dependencies(acts),
    decreases acts.len(),
{
    if acts.len() > 0 {
        lemma_edges_len(acts.drop_last());
    }
}

/// Putting a node keeps the ids apart and adds at most its own id.
pub proof fn lemma_put_node(nodes: Seq<NodeView>, n: NodeView)
    requires
        distinct_ids(nodes),
    ensures
        distinct_ids(put_node(nodes, n)),
        has_id(nodes, n.id) ==> put_node(nodes, n).len() == nodes.len(),
        !has_id(nodes, n.id) ==> put_node(nodes, n) == nodes.push(n),
        has_id(put_node(nodes, n), n.id),
        forall|id: Seq<char>| #[trigger]
            has_id(put_node(nodes, n), id) <==> (has_id(nodes, id) || id == n.id),
{
    let after = put_node(nodes, n);
    if has_id(nodes, n.id) {
        let at = choose|i: int| node_is(nodes, i, n.id);
        assert(node_is(nodes, at, n.id));
        assert(after == nodes.update(at, n));
        assert(node_is(after, at, n.id));
        assert forall|id: Seq<char>| #[trigger]
            has_id(after, id) <==> (has_id(nodes, id) || id == n.id) by {
            if has_id(after, id) {
                let i = choose|i: int| node_is(after, i, id);
                assert(node_is(after, i, id));
                assert(node_is(nodes, i, id));
            }
            if has_id(nodes, id) {
                let i = choose|i: int| node_is(nodes, i, id);
                assert(node_is(nodes, i, id));
                assert(node_is(after, i, id));
            }
        }
    } else {
        assert(after == nodes.push(n));
        assert(node_is(after, nodes.len() as int, n.id));
        assert forall|i: int, j: int| 0 <= i < j < after.len() implies after[i].id
            != after[j].id by {
            if j == nodes.len() {
                assert(!node_is(nodes, i, n.id));
            }
        }
        assert forall|id: Seq<char>| #[trigger]
            has_id(after, id) <==> (has_id(nodes, id) || id == n.id) by {
            if has_id(after, id) {
                let i = choose|i: int| node_is(after, i, id);
                assert(node_is(after, i, id));
                if i < nodes.len() {
                    assert(node_is(nodes, i, id));
                }
            }
            if has_id(nodes, id) {
                let i = choose|i: int| node_is(nodes, i, id);
                assert(node_is(nodes, i, id));
                assert(node_is(after, i, id));
            }
        }
    }
}

/// The ids of the nodes of a plan are exactly those that its entries declare,
/// and none occurs twice among the nodes.
pub proof fn lemma_nodes_ids(acts: Seq<ActivityInputView>)
    ensures
        nodes_of(acts).len() <= acts.len(),
        distinct_ids(nodes_of(acts)),
        forall|id: Seq<char>| #[trigger] has_id(nodes_of(acts), id) <==> declares(acts, id),
    decreases acts.len(),
{
    if acts.len() > 0 {
        let prev = acts.drop_last();
        let before = nodes_of(prev);
        let n = node_of(acts.last());
        lemma_nodes_ids(prev);
        lemma_put_node(before, n);
        assert(nodes_of(acts) == put_node(before, n));
        assert forall|id: Seq<char>| #[trigger]
            has_id(nodes_of(acts), id) <==> declares(acts, id) by {
            if declares(acts, id) {
                let k = choose|k: int| declares_at(acts, k, id);
                assert(declares_at(acts, k, id));
                if k < prev.len() {
                    assert(declares_at(prev, k, id));
                }
            }
            if declares(prev, id) {
                let k = choose|k: int| declares_at(prev, k, id);
                assert(declares_at(prev, k, id));
                assert(declares_at(acts, k, id));
            }
            if id == n.id {
                assert(declares_at(acts, acts.len() - 1, id));
            }
        }
    } else {
        assert forall|id: Seq<char>| #[trigger]
            has_id(nodes_of(acts), id) <==> declares(acts, id) by {
            if has_id(nodes_of(acts), id) {
                let i = choose|i: int| node_is(nodes_of(acts), i, id);
                assert(node_is(nodes_of(acts), i, id));
            }
            if declares(acts, id) {
                let k = choose|k: int| declares_at(acts, k, id);
                assert(declares_at(acts, k, id));
            }
        }
    }
}

/// The nodes that the entries of a plan stand for, one for one.
pub open spec fn nodes_one_for_one(acts: Seq<ActivityInputView>) -> Seq<NodeView> {
    Seq::new(acts.len(), |k: int| node_of(acts[k]))
}

/// Where no id is declared twice, the nodes of a plan are its entries, one
/// for one and in declaration order. Where one is, there are fewer nodes than
/// entries.
pub proof fn lemma_nodes_of_distinct(acts: Seq<ActivityInputView>)
    ensures
        plan_ids_distinct(acts) ==> nodes_of(acts) == nodes_one_for_one(acts),
        !plan_ids_distinct(acts) ==> nodes_of(acts).len() < acts.len(),
    decreases acts.len(),
{
    if acts.len() > 0 {
        let prev = acts.drop_last();
        let before = nodes_of(prev);
        let n = node_of(acts.last());
        lemma_nodes_of_distinct(prev);
        lemma_nodes_ids(prev);
        lemma_put_node(before, n);
        assert(nodes_of(acts) == put_node(before, n));
        if plan_ids_distinct(acts) {
            assert(plan_ids_distinct(prev)) by {
                assert forall|i: int, j: int| 0 <= i < j < prev.len() implies prev[i].id
                    != prev[j].id by {
                    assert(acts[i].id != acts[j].id);
                }
            }
            if declares(prev, n.id) {
                let k = choose|k: int| declares_at(prev, k, n.id);
                assert(declares_at(prev, k, n.id));
                assert(acts[k].id == acts[acts.len() - 1].id);
            }
            assert(!has_id(before, n.id));
            assert(nodes_of(acts) =~= nodes_one_for_one(acts));
        } else {
            if plan_ids_distinct(prev) {
                let (i, j) = choose|i: int, j: int|
                    0 <= i < j < acts.len() && acts[i].id == acts[j].id;
                assert(j == acts.len() - 1) by {
                    if j < prev.len() {
                        assert(prev[i].id == prev[j].id);
                    }
                }
                assert(declares_at(prev, i, n.id));
                assert(has_id(before, n.id));
            }
        }
    } else {
        assert(nodes_of(acts) =~= nodes_one_for_one(acts));
    }
}

/// Compiles one plan entry: returns its node and appends its inbound edges
/// to `edges`.
fn compile_activity(a: ActivityInput, edges: &mut Vec<Edge>) -> (node: Node)
    ensures
        node@ == node_of(a@),
        final(edges).deep_view() == old(edges).deep_view() + edges_of_activity(a@),
{
    let ghost a_view = a@;
    let ghost edges_before = edges.deep_view();
    let ActivityInput {
        activity_type,
        id,
        description,
        kind,
        agent,
        tools,
        tasks,
        dependencies,
        expected_outcome,
    } = a;
    let (skill_to_use, assigned_agent_id_preference, agent_context) = match agent {
        Some(g) => (g.skill_to_use, g.assigned_agent_id_preference, g.agent_context),
        None => (None, None, None),
    };
    let (tool_to_use, tool_parameters) = match tools {
        Some(mut t) => {
            if t.len() > 0 {
                let first = t.remove(0);
                (first.tool_to_use, Some(first.tool_parameters))
            } else {
                (None, None)
            }
        },
        None => (None, None),
    };
    let mut k: usize = 0;
    while k < dependencies.len()
        invariant
            k <= dependencies.len(),
            dependencies.deep_view() == a_view.dependencies,
            id@ == a_view.id,
            edges.deep_view() == edges_before + edges_of_activity(a_view).take(k as int),
        decreases dependencies.len() - k,
    {
        let d = &dependencies[k];
        let ghost so_far = edges.deep_view();
        edges.push(
            Edge {
                source: d.source.clone(),
                target: id.clone(),
                condition: clone_opt(&d.condition),
            },
        );
        proof {
            let e = edge_of(a_view.dependencies[k as int], a_view.id);
            assert(edges@[edges.len() - 1].deep_view() == e);
            assert(edges.deep_view() =~= so_far.push(e));
            assert(edges_of_activity(a_view).take(k as int + 1) =~= edges_of_activity(a_view).take(
                k as int,
            ).push(e));
            assert(edges_before + edges_of_activity(a_view).take(k as int + 1) =~= (edges_before
                + edges_of_activity(a_view).take(k as int)).push(e));
        }
        k += 1;
    }
    proof {
        assert(edges_of_activity(a_view).take(k as int) =~= edges_of_activity(a_view));
    }
    let node_id = id.clone();
    let activity = Activity {
        activity_type,
        id,
        description,
        kind: Some(kind),
        skill_to_use,
        assigned_agent_id_preference,
        agent_context,
        tool_to_use,
        tool_parameters,
        tasks,
        dependencies,
        expected_outcome: Some(expected_outcome),
        activity_output: None,
    };
    Node { id: node_id, node_type: NodeType::Activity(activity) }
}

impl From<WorkflowPlanInput> for Graph {
    /// Flattens a plan into a graph, without validating it: one node per
    /// distinct activity id, one edge per declared dependency.
    fn from(plan_input: WorkflowPlanInput) -> (graph: Graph)
        ensures
            graph@ == flatten(plan_input@),
            graph@.ids_distinct(),
            graph@.edges.len() == total_dependencies(plan_input@.activities),
    {
        let ghost acts = plan_input@.activities;
        let WorkflowPlanInput { plan_name, activities } = plan_input;
        let ghost all = activities@;
        let mut nodes: Vec<Node> = Vec::new();
        let mut edges: Vec<Edge> = Vec::new();
        proof {
            assert(nodes.deep_view() =~= nodes_of(acts.take(0)));
            assert(edges.deep_view() =~= edges_of(acts.take(0)));
        }
        for a in it: activities
            invariant
                it.seq() == all,
                acts == Seq::new(all.len(), |i: int| all[i].deep_view()),
                nodes.deep_view() == nodes_of(acts.take(it.index() as int)),
                edges.deep_view() == edges_of(acts.take(it.index() as int)),
        {
            let ghost done = acts.take(it.index() as int);
            let ghost next = acts.take(it.index() as int + 1);
            let ghost nodes_before = nodes.deep_view();
            proof {
                assert(next.drop_last() =~= done);
                assert(next.last() == a@);
                lemma_nodes_ids(done);
                lemma_put_node(nodes_before, node_of(a@));
            }
            let node = compile_activity(a, &mut edges);
            match find_id(&nodes, &node.id) {
                Some(i) => {
                    nodes.set(i, node);
                    proof {
                        let at = choose|j: int| node_is(nodes_before, j, node@.id);
                        assert(node_is(nodes_before, at, node@.id));
                        assert(node_is(nodes_before, i as int, node@.id));
                        assert(at == i);
                        assert(nodes.deep_view() =~= nodes_before.update(i as int, node@));
                    }
                },
                None => {
                    nodes.push(node);
                    proof {
                        assert(nodes.deep_view() =~= nodes_before.push(node@));
                    }
                },
            }
        }
        proof {
            assert(acts.take(all.len() as int) =~= acts);
            lemma_nodes_ids(acts);
            lemma_edges_len(acts);
        }
        Graph { plan_name, nodes, edges }
    }
}

/// The conversion is specified by the contract of `from` itself, over the
/// views of the plan and the graph; no graph is named for it beyond that.
impl vstd::std_specs::convert::FromSpecImpl<WorkflowPlanInput> for Graph {
    open spec fn obeys_from_spec() -> bool {
        false
    }

    open spec fn from_spec(plan_input: WorkflowPlanInput) -> Graph {
        arbitrary()
    }
}

/// `d` is a dependency of entry `k` of the plan.
pub open spec fn is_dependency(acts: Seq<ActivityInputView>, k: int, d: int) -> bool {
    0 <= k < acts.len() && 0 <= d < acts[k].dependencies.len()
}

/// The edge that dependency `d` of entry `k` compiles to.
pub open spec fn edge_from(acts: Seq<ActivityInputView>, k: int, d: int) -> EdgeView {
    edge_of(acts[k].dependencies[d], acts[k].id)
}

/// Every dependency of the plan names an id that some entry declares.
pub open spec fn plan_sources_declared(acts: Seq<ActivityInputView>) -> bool {
    forall|k: int, d: int| #[trigger]
        is_dependency(acts, k, d) ==> declares(acts, acts[k].dependencies[d].source)
}

/// The dependencies of the plan form no cycle.
pub open spec fn plan_acyclic(plan: WorkflowPlanInputView) -> bool {
    flatten(plan).acyclic()
}

/// The plan passes every validation.
pub open spec fn plan_valid(plan: WorkflowPlanInputView) -> bool {
    &&& plan_sources_declared(plan.activities)
    &&& plan_ids_distinct(plan.activities)
    &&& plan_acyclic(plan)
}

/// The error that compiling the plan reports, if any: an undeclared
/// dependency comes first, then a duplicate id, then a cycle.
pub open spec fn refusal(plan: WorkflowPlanInputView) -> Option<CompileError> {
    if !plan_sources_declared(plan.activities) {
        Some(CompileError::UnknownDependency)
    } else if !plan_ids_distinct(plan.activities) {
        Some(CompileError::DuplicateNodeId)
    } else if !plan_acyclic(plan) {
        Some(CompileError::CycleDetected)
    } else {
        None
    }
}

/// Every edge of a plan comes from a dependency: the one that is returned.
pub proof fn lemma_edge_is_dependency(acts: Seq<ActivityInputView>, e: int) -> (at: (int, int))
    requires
        0 <= e < edges_of(acts).len(),
    ensures
        is_dependency(acts, at.0, at.1),
        edges_of(acts)[e] == edge_from(acts, at.0, at.1),
    decreases acts.len(),
{
    let prev = acts.drop_last();
    let before = edges_of(prev);
    assert(edges_of(acts) == before + edges_of_activity(acts.last()));
    if e < before.len() {
        let at = lemma_edge_is_dependency(prev, e);
        assert(acts[at.0] == prev[at.0]);
        at
    } else {
        (acts.len() - 1, e - before.len())
    }
}

/// Every dependency of a plan gives an edge: the one at the index that is
/// returned.
pub proof fn lemma_dependency_is_edge(acts: Seq<ActivityInputView>, k: int, d: int) -> (e: int)
    requires
        is_dependency(acts, k, d),
    ensures
        0 <= e < edges_of(acts).len(),
        edges_of(acts)[e] == edge_from(acts, k, d),
    decreases acts.len(),
{
    let prev = acts.drop_last();
    let before = edges_of(prev);
    assert(edges_of(acts) == before + edges_of_activity(acts.last()));
    if k < prev.len() {
        assert(acts[k] == prev[k]);
        assert(is_dependency(prev, k, d));
        lemma_dependency_is_edge(prev, k, d)
    } else {
        before.len() + d
    }
}

/// In the graph that a plan flattens to every edge ends at a node, and every
/// edge starts at one exactly when every dependency names a declared id.
pub proof fn lemma_flatten_endpoints(plan: WorkflowPlanInputView)
    ensures
        flatten(plan).targets_declared(),
        flatten(plan).sources_declared() <==> plan_sources_declared(plan.activities),
{
    let acts = plan.activities;
    let g = flatten(plan);
    lemma_nodes_ids(acts);
    assert forall|e: int| 0 <= e < g.edges.len() implies g.has_node(
        #[trigger] g.edges[e].target,
    ) by {
        let (k, d) = lemma_edge_is_dependency(acts, e);
        assert(declares_at(acts, k, g.edges[e].target));
        assert(has_id(nodes_of(acts), g.edges[e].target) <==> declares(acts, g.edges[e].target));
    }
    if plan_sources_declared(acts) {
        assert forall|e: int| 0 <= e < g.edges.len() implies g.has_node(
            #[trigger] g.edges[e].source,
        ) by {
            let (k, d) = lemma_edge_is_dependency(acts, e);
            assert(is_dependency(acts, k, d));
            assert(has_id(nodes_of(acts), g.edges[e].source) <==> declares(
                acts,
                g.edges[e].source,
            ));
        }
    }
    if g.sources_declared() {
        assert forall|k: int, d: int| #[trigger] is_dependency(acts, k, d) implies declares(
            acts,
            acts[k].dependencies[d].source,
        ) by {
            let e = lemma_dependency_is_edge(acts, k, d);
            assert(g.has_node(g.edges[e].source));
            assert(has_id(nodes_of(acts), g.edges[e].source) <==> declares(
                acts,
                g.edges[e].source,
            ));
        }
    }
}

/// Entry `to` of the plan declares a dependency on entry `from`.
pub open spec fn depends_on(acts: Seq<ActivityInputView>, to: int, from: int) -> bool {
    &&& 0 <= to < acts.len()
    &&& 0 <= from < acts.len()
    &&& exists|d: int|
        0 <= d < acts[to].dependencies.len() && (#[trigger] acts[to].dependencies[d]).source
            == acts[from].id
}

/// `walk` is a dependency cycle: every entry on it is a dependency of the
/// next one, and it ends where it began.
pub open spec fn is_dependency_cycle(acts: Seq<ActivityInputView>, walk: Seq<int>) -> bool {
    &&& walk.len() >= 2
    &&& walk.first() == walk.last()
    &&& forall|t: int| 0 <= t < walk.len() - 1 ==> depends_on(acts, walk[t + 1], #[trigger] walk[t])
}

/// A plan with a dependency on an undeclared id is refused with
/// `UnknownDependency`, whatever else is wrong with it.
pub proof fn lemma_unknown_dependency_refused(plan: WorkflowPlanInputView, k: int, d: int)
    requires
        is_dependency(plan.activities, k, d),
        !declares(plan.activities, plan.activities[k].dependencies[d].source),
    ensures
        refusal(plan) == Some(CompileError::UnknownDependency),
{
}

/// A plan with a dependency cycle is refused with `CycleDetected`, where
/// every dependency names a declared id and no id is declared twice.
pub proof fn lemma_cycle_refused(plan: WorkflowPlanInputView, walk: Seq<int>)
    requires
        plan.activities.len() <= usize::MAX,
        plan_sources_declared(plan.activities),
        plan_ids_distinct(plan.activities),
        is_dependency_cycle(plan.activities, walk),
    ensures
        refusal(plan) == Some(CompileError::CycleDetected),
{
    let acts = plan.activities;
    let g = flatten(plan);
    let links = g.links();
    lemma_nodes_of_distinct(acts);
    lemma_nodes_ids(acts);
    lemma_flatten_endpoints(plan);
    g.lemma_links_wf();
    let nodes = Seq::new(walk.len(), |t: int| walk[t] as usize);
    assert forall|t: int| 0 <= t < nodes.len() - 1 implies links.has_arc(
        #[trigger] nodes[t],
        nodes[t + 1],
    ) by {
        let from = walk[t];
        let to = walk[t + 1];
        assert(depends_on(acts, to, from));
        let d = choose|d: int|
            0 <= d < acts[to].dependencies.len() && (#[trigger] acts[to].dependencies[d]).source
                == acts[from].id;
        assert(is_dependency(acts, to, d));
        let e = lemma_dependency_is_edge(acts, to, d);
        g.lemma_index_of_own_id(from);
        g.lemma_index_of_own_id(to);
        assert(links.sources[e] == from as usize);
        assert(links.targets[e] == to as usize);
    }
    links.lemma_cycle_not_acyclic(nodes);
}

/// In the graph of a plan whose ids are declared once each, an arc between
/// two nodes is a dependency between the entries that they stand for.
proof fn lemma_arc_is_dependency(plan: WorkflowPlanInputView, from: usize, to: usize)
    requires
        plan.activities.len() <= usize::MAX,
        plan_sources_declared(plan.activities),
        plan_ids_distinct(plan.activities),
        flatten(plan).links().has_arc(from, to),
    ensures
        depends_on(plan.activities, to as int, from as int),
{
    let acts = plan.activities;
    let g = flatten(plan);
    let links = g.links();
    lemma_nodes_of_distinct(acts);
    assert(g.nodes == nodes_one_for_one(acts));
    assert(g.ids_distinct()) by {
        assert forall|i: int, j: int| 0 <= i < j < g.nodes.len() implies g.nodes[i].id
            != g.nodes[j].id by {
            assert(acts[i].id != acts[j].id);
        }
    }
    let e = choose|e: int|
        0 <= e < links.sources.len() && e < links.targets.len() && links.sources[e] == from
            && links.targets[e] == to;
    let (k, d) = lemma_edge_is_dependency(acts, e);
    g.lemma_index_of_own_id(k);
    assert(g.edges[e].target == g.nodes[k].id);
    assert(to == k);
    let source = acts[k].dependencies[d].source;
    assert(declares(acts, source));
    let k2 = choose|k2: int| declares_at(acts, k2, source);
    assert(declares_at(acts, k2, source));
    g.lemma_index_of_own_id(k2);
    assert(g.edges[e].source == g.nodes[k2].id);
    assert(from == k2);
}

/// A plan is refused with `CycleDetected` only where it has a dependency
/// cycle.
pub proof fn lemma_cycle_detected_has_cycle(plan: WorkflowPlanInputView) -> (walk: Seq<int>)
    requires
        plan.activities.len() <= usize::MAX,
        refusal(plan) == Some(CompileError::CycleDetected),
    ensures
        is_dependency_cycle(plan.activities, walk),
{
    let acts = plan.activities;
    let g = flatten(plan);
    let links = g.links();
    assert(links.wf()) by {
        lemma_flatten_endpoints(plan);
        g.lemma_links_wf();
    }
    lemma_nodes_ids(acts);
    let nodes = links.lemma_not_acyclic_has_cycle();
    let walk = Seq::new(nodes.len(), |t: int| nodes[t] as int);
    assert forall|t: int| 0 <= t < walk.len() - 1 implies depends_on(
        acts,
        walk[t + 1],
        #[trigger] walk[t],
    ) by {
        assert(links.has_arc(nodes[t], nodes[t + 1]));
        lemma_arc_is_dependency(plan, nodes[t], nodes[t + 1]);
    }
    walk
}

/// What a successful compilation yields: the graph, and the order in which
/// its nodes are visited, as indices into `graph.nodes`.
#[derive(Debug, Clone)]
pub struct CompiledPlan {
    pub graph: Graph,
    pub order: Vec<usize>,
}

impl Graph {
    /// Checks that this graph is what a successful compilation yields, and
    /// returns the canonical visitation order of its nodes. An edge that
    /// names no node is reported first, then an id that occurs twice, then a
    /// cycle.
    pub fn validate(&self) -> (checked: Result<Vec<usize>, CompileError>)
        ensures
            checked is Ok <==> self@.wf(),
            checked is Err ==> Some(checked->Err_0) == self@.refusal(),
            checked is Ok ==> self@.links().is_canonical(checked->Ok_0@),
            checked is Ok ==> self@.links().is_topological(checked->Ok_0@),
            checked is Ok ==> checked->Ok_0@ == self@.links().canonical_order(),
    {
        match self.links() {
            None => Err(CompileError::UnknownDependency),
            Some(links) => {
                if !self.has_distinct_ids() {
                    return Err(CompileError::DuplicateNodeId);
                }
                match links.topological_order() {
                    None => Err(CompileError::CycleDetected),
                    Some(order) => {
                        proof {
                            links@.lemma_canonical_unique(order@);
                        }
                        Ok(order)
                    },
                }
            },
        }
    }
}

/// Compiles a plan document: flattens it into a graph and validates it.
///
/// Fails closed, with exactly one error: `UnknownDependency` where a
/// dependency names an id that no activity declares; else `DuplicateNodeId`
/// where two activities declare the same id; else `CycleDetected` where the
/// dependencies form a cycle. A plan that passes yields one node per activity
/// in declaration order, one edge per dependency, and the canonical
/// topological order of the nodes.
pub fn compile(plan_input: WorkflowPlanInput) -> (compiled: Result<CompiledPlan, CompileError>)
    ensures
        compiled is Ok <==> plan_valid(plan_input@),
        compiled is Err ==> Some(compiled->Err_0) == refusal(plan_input@),
        compiled is Ok ==> compiled->Ok_0.graph@ == flatten(plan_input@),
        compiled is Ok ==> compiled->Ok_0.graph@.wf(),
        compiled is Ok ==> compiled->Ok_0.graph@.nodes == nodes_one_for_one(plan_input@.activities),
        compiled is Ok ==> compiled->Ok_0.graph@.nodes.len() == plan_input@.activities.len(),
        compiled is Ok ==> compiled->Ok_0.graph@.edges.len() == total_dependencies(
            plan_input@.activities,
        ),
        compiled is Ok ==> compiled->Ok_0.graph@.links().is_canonical(compiled->Ok_0.order@),
        compiled is Ok ==> compiled->Ok_0.graph@.links().is_topological(compiled->Ok_0.order@),
        compiled is Ok ==> compiled->Ok_0.order@ == compiled->Ok_0.graph@.links().canonical_order(),
{
    let ghost plan = plan_input@;
    let declared: usize = plan_input.activities.len();
    proof {
        lemma_flatten_endpoints(plan);
        lemma_nodes_of_distinct(plan.activities);
    }
    let graph = Graph::from(plan_input);
    match graph.links() {
        None => Err(CompileError::UnknownDependency),
        Some(links) => {
            if graph.nodes.len() != declared {
                return Err(CompileError::DuplicateNodeId);
            }
            match links.topological_order() {
                None => Err(CompileError::CycleDetected),
                Some(order) => {
                    proof {
                        links@.lemma_canonical_unique(order@);
                    }
                    Ok(CompiledPlan { graph, order })
                },
            }
        },
    }
}

} // verus!
