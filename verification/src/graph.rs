//! The compiled dependency graph of a plan.

use vstd::prelude::*;
use crate::plan::{ActivityType, Dependency, DependencyView, TaskConfigInput, TaskConfigInputView};
use crate::error::CompileError;
use crate::text::opt_text;
use crate::topology::{Links, LinksView};

verus! {

/// Whether an agent can take work.
#[derive(Debug, Clone, Copy, PartialEq, Eq, Hash, Structural)]
pub enum AgentStatus {
    Idle,
    Busy,
    Unavailable,
}

/// One unit of work of a compiled plan: an activity of the plan document with
/// its agent block and first tool flattened into it.
#[derive(Debug, Clone)]
pub struct Activity {
    pub activity_type: ActivityType,
    pub id: String,
    pub description: String,
    /// The `type` entry of the document.
    pub kind: Option<String>,
    pub skill_to_use: Option<String>,
    pub assigned_agent_id_preference: Option<String>,
    pub agent_context: Option<serde_json::Value>,
    pub tool_to_use: Option<String>,
    pub tool_parameters: Option<serde_json::Value>,
    pub tasks: Option<Vec<TaskConfigInput>>,
    /// One entry per inbound edge of this activity.
    pub dependencies: Vec<Dependency>,
    /// Describes the result for a reader; never enforced.
    pub expected_outcome: Option<String>,
    /// Absent until the activity has run, then its result.
    pub activity_output: Option<String>,
}

pub struct ActivityView {
    pub activity_type: ActivityType,
    pub id: Seq<char>,
    pub description: Seq<char>,
    pub kind: Option<Seq<char>>,
    pub skill_to_use: Option<Seq<char>>,
    pub assigned_agent_id_preference: Option<Seq<char>>,
    pub agent_context: Option<serde_json::Value>,
    pub tool_to_use: Option<Seq<char>>,
    pub tool_parameters: Option<serde_json::Value>,
    pub tasks: Option<Seq<TaskConfigInputView>>,
    pub dependencies: Seq<DependencyView>,
    pub expected_outcome: Option<Seq<char>>,
    pub activity_output: Option<Seq<char>>,
}

impl ActivityView {
    /// This activity with `output` recorded as its result.
    pub open spec fn with_output(self, output: Option<Seq<char>>) -> ActivityView {
        ActivityView { activity_output: output, ..self }
    }
}

impl DeepView for Activity {
    type V = ActivityView;

    open spec fn deep_view(&self) -> ActivityView {
        ActivityView {
            activity_type: self.activity_type,
            id: self.id@,
            description: self.description@,
            kind: opt_text(self.kind),
            skill_to_use: opt_text(self.skill_to_use),
            assigned_agent_id_preference: opt_text(self.assigned_agent_id_preference),
            agent_context: self.agent_context,
            tool_to_use: opt_text(self.tool_to_use),
            tool_parameters: self.tool_parameters,
            tasks: self.tasks.deep_view(),
            dependencies: self.dependencies.deep_view(),
            expected_outcome: opt_text(self.expected_outcome),
            activity_output: opt_text(self.activity_output),
        }
    }
}

impl View for Activity {
    type V = ActivityView;

    open spec fn view(&self) -> ActivityView {
        self.deep_view()
    }
}

/// The payload of a node.
#[derive(Debug, Clone)]
pub enum NodeType {
    Activity(Activity),
}

pub enum NodeTypeView {
    Activity(ActivityView),
}

impl DeepView for NodeType {
    type V = NodeTypeView;

    open spec fn deep_view(&self) -> NodeTypeView {
        match self {
            NodeType::Activity(a) => NodeTypeView::Activity(a.deep_view()),
        }
    }
}

impl View for NodeType {
    type V = NodeTypeView;

    open spec fn view(&self) -> NodeTypeView {
        self.deep_view()
    }
}

/// A node of the graph: an id and its payload.
#[derive(Debug, Clone)]
pub struct Node {
    pub id: String,
    pub node_type: NodeType,
}

pub struct NodeView {
    pub id: Seq<char>,
    pub node_type: NodeTypeView,
}

impl NodeView {
    /// The activity that this node holds.
    pub open spec fn activity(self) -> ActivityView {
        match self.node_type {
            NodeTypeView::Activity(a) => a,
        }
    }

    /// The recorded result of this node, absent until it has run.
    pub open spec fn output(self) -> Option<Seq<char>> {
        self.activity().activity_output
    }

    /// This node with `output` recorded as its result.
    pub open spec fn with_output(self, output: Option<Seq<char>>) -> NodeView {
        NodeView {
            id: self.id,
            node_type: NodeTypeView::Activity(self.activity().with_output(output)),
        }
    }
}

impl DeepView for Node {
    type V = NodeView;

    open spec fn deep_view(&self) -> NodeView {
        NodeView { id: self.id@, node_type: self.node_type.deep_view() }
    }
}

impl View for Node {
    type V = NodeView;

    open spec fn view(&self) -> NodeView {
        self.deep_view()
    }
}

impl Node {
    /// The activity that this node holds.
    pub fn activity(&self) -> (a: &Activity)
        ensures
            a@ == self@.activity(),
    {
        match &self.node_type {
            NodeType::Activity(a) => a,
        }
    }
}

/// A directed precedence from `source` to `target`, gated by `condition`
/// when one is present.
#[derive(Debug, Clone)]
pub struct Edge {
    pub source: String,
    pub target: String,
    pub condition: Option<String>,
}

pub struct EdgeView {
    pub source: Seq<char>,
    pub target: Seq<char>,
    pub condition: Option<Seq<char>>,
}

impl DeepView for Edge {
    type V = EdgeView;

    open spec fn deep_view(&self) -> EdgeView {
        EdgeView { source: self.source@, target: self.target@, condition: opt_text(self.condition) }
    }
}

impl View for Edge {
    type V = EdgeView;

    open spec fn view(&self) -> EdgeView {
        self.deep_view()
    }
}

/// The dependency graph of one plan. `nodes` stands for a mapping from node
/// id to node: in a well-formed graph no id occurs twice.
#[derive(Debug, Clone)]
pub struct Graph {
    pub plan_name: String,
    pub nodes: Vec<Node>,
    pub edges: Vec<Edge>,
}

pub struct GraphView {
    pub plan_name: Seq<char>,
    pub nodes: Seq<NodeView>,
    pub edges: Seq<EdgeView>,
}

/// Node `i` of `nodes` has the id `id`.
pub open spec fn node_is(nodes: Seq<NodeView>, i: int, id: Seq<char>) -> bool {
    0 <= i < nodes.len() && nodes[i].id == id
}

/// Node `i` is the first of `nodes` that has the id `id`.
pub open spec fn is_first(nodes: Seq<NodeView>, i: int, id: Seq<char>) -> bool {
    node_is(nodes, i, id) && forall|j: int| 0 <= j < i ==> nodes[j].id != id
}

/// The index of the first of `nodes` that has the id `id`, or 0 where none
/// has it.
pub open spec fn first_index(nodes: Seq<NodeView>, id: Seq<char>) -> int {
    if has_id(nodes, id) {
        choose|i: int| is_first(nodes, i, id)
    } else {
        0
    }
}

/// Where some node has the id `id`, `first_index` is the first such node.
pub proof fn lemma_first_index(nodes: Seq<NodeView>, id: Seq<char>)
    requires
        has_id(nodes, id),
    ensures
        is_first(nodes, first_index(nodes, id), id),
    decreases nodes.len(),
{
    let some = choose|i: int| node_is(nodes, i, id);
    assert(node_is(nodes, some, id));
    let earlier = |i: int| 0 <= i < nodes.len() && nodes[i].id == id;
    assert(earlier(some));
    let first = lemma_least(earlier, some);
    assert(earlier(first));
    assert forall|j: int| 0 <= j < first implies nodes[j].id != id by {
        assert(!earlier(j));
    }
    assert(is_first(nodes, first, id));
}

/// Among the first `k + 1` integers, the least one that satisfies `pred`.
pub proof fn lemma_least(pred: spec_fn(int) -> bool, k: int) -> (q: int)
    requires
        0 <= k,
        pred(k),
    ensures
        0 <= q <= k,
        pred(q),
        forall|r: int| 0 <= r < q ==> !#[trigger] pred(r),
    decreases k,
{
    if exists|r: int| 0 <= r < k && #[trigger] pred(r) {
        let r = choose|r: int| 0 <= r < k && #[trigger] pred(r);
        lemma_least(pred, r)
    } else {
        k
    }
}

/// Some node of `nodes` has the id `id`.
pub open spec fn has_id(nodes: Seq<NodeView>, id: Seq<char>) -> bool {
    exists|i: int| node_is(nodes, i, id)
}

/// No id occurs twice among `nodes`.
pub open spec fn distinct_ids(nodes: Seq<NodeView>) -> bool {
    forall|i: int, j: int| 0 <= i < j < nodes.len() ==> nodes[i].id != nodes[j].id
}

impl GraphView {
    /// Node `i` has the id `id`.
    pub open spec fn node_is(self, i: int, id: Seq<char>) -> bool {
        node_is(self.nodes, i, id)
    }

    /// Some node has the id `id`.
    pub open spec fn has_node(self, id: Seq<char>) -> bool {
        has_id(self.nodes, id)
    }

    /// The index of the first node with the id `id`; meaningful where
    /// `has_node(id)`.
    pub open spec fn index_of(self, id: Seq<char>) -> int {
        first_index(self.nodes, id)
    }

    /// Every edge starts and ends at a node of the graph.
    pub open spec fn endpoints_declared(self) -> bool {
        self.sources_declared() && self.targets_declared()
    }

    /// The precedence relation of the graph over node indices.
    pub open spec fn links(self) -> LinksView {
        LinksView {
            node_count: self.nodes.len(),
            sources: Seq::new(self.edges.len(), |e: int| self.index_of(self.edges[e].source) as usize),
            targets: Seq::new(self.edges.len(), |e: int| self.index_of(self.edges[e].target) as usize),
        }
    }

    /// The edges form no cycle: some order of the nodes has the source of
    /// every edge before its target.
    pub open spec fn acyclic(self) -> bool {
        self.links().acyclic()
    }

    /// The error that validating the graph reports, if any: an edge that
    /// names no node comes first, then an id that occurs twice, then a cycle.
    pub open spec fn refusal(self) -> Option<CompileError> {
        if !self.endpoints_declared() {
            Some(CompileError::UnknownDependency)
        } else if !self.ids_distinct() {
            Some(CompileError::DuplicateNodeId)
        } else if !self.acyclic() {
            Some(CompileError::CycleDetected)
        } else {
            None
        }
    }

    /// The graph is what a successful compilation yields: ids are unique,
    /// every edge joins two nodes, and the edges form no cycle. Its nodes
    /// can be numbered by machine integers.
    pub open spec fn wf(self) -> bool {
        &&& self.nodes.len() <= usize::MAX
        &&& self.endpoints_declared()
        &&& self.ids_distinct()
        &&& self.acyclic()
    }

    /// No node id occurs twice.
    pub open spec fn ids_distinct(self) -> bool {
        distinct_ids(self.nodes)
    }

    /// Every edge starts at a node of the graph.
    pub open spec fn sources_declared(self) -> bool {
        forall|e: int| 0 <= e < self.edges.len() ==> self.has_node(#[trigger] self.edges[e].source)
    }

    /// Every edge ends at a node of the graph.
    pub open spec fn targets_declared(self) -> bool {
        forall|e: int| 0 <= e < self.edges.len() ==> self.has_node(#[trigger] self.edges[e].target)
    }

    /// No node has a recorded result.
    pub open spec fn outputs_absent(self) -> bool {
        forall|i: int| 0 <= i < self.nodes.len() ==> (#[trigger] self.nodes[i]).output() is None
    }

    /// This graph with `output` recorded as the result of node `i`.
    pub open spec fn with_output(self, i: int, output: Option<Seq<char>>) -> GraphView {
        GraphView { nodes: self.nodes.update(i, self.nodes[i].with_output(output)), ..self }
    }

    /// This graph with no result recorded for any node.
    pub open spec fn cleared(self) -> GraphView {
        GraphView {
            nodes: Seq::new(self.nodes.len(), |i: int| self.nodes[i].with_output(None)),
            ..self
        }
    }

    /// `other` has the structure of this graph: the same name, the same node
    /// ids in the same places and the same edges. Only what is recorded at
    /// the nodes may differ.
    pub open spec fn same_structure(self, other: GraphView) -> bool {
        &&& self.plan_name == other.plan_name
        &&& self.edges == other.edges
        &&& self.nodes.len() == other.nodes.len()
        &&& forall|i: int| 0 <= i < self.nodes.len() ==> self.nodes[i].id == other.nodes[i].id
    }

    /// Graphs of the same structure have the same precedence relation, and
    /// one is well formed exactly when the other is.
    pub proof fn lemma_same_structure(self, other: GraphView)
        requires
            self.same_structure(other),
        ensures
            forall|id: Seq<char>| has_id(self.nodes, id) <==> has_id(other.nodes, id),
            forall|id: Seq<char>| first_index(self.nodes, id) == first_index(other.nodes, id),
            self.links() == other.links(),
            self.endpoints_declared() == other.endpoints_declared(),
            self.ids_distinct() == other.ids_distinct(),
            self.acyclic() == other.acyclic(),
            self.wf() == other.wf(),
    {
        assert forall|id: Seq<char>| has_id(self.nodes, id) <==> has_id(other.nodes, id) by {
            if has_id(self.nodes, id) {
                let i = choose|i: int| node_is(self.nodes, i, id);
                assert(node_is(other.nodes, i, id));
            }
            if has_id(other.nodes, id) {
                let i = choose|i: int| node_is(other.nodes, i, id);
                assert(node_is(self.nodes, i, id));
            }
        }
        assert forall|id: Seq<char>| first_index(self.nodes, id) == first_index(
            other.nodes,
            id,
        ) by {
            if has_id(self.nodes, id) {
                lemma_first_index(self.nodes, id);
                lemma_first_index(other.nodes, id);
                let a = first_index(self.nodes, id);
                let b = first_index(other.nodes, id);
                assert(is_first(self.nodes, a, id));
                assert(is_first(other.nodes, b, id));
                if a < b {
                    assert(other.nodes[a].id == id);
                }
                if b < a {
                    assert(self.nodes[b].id == id);
                }
            }
        }
        assert(self.links().sources =~= other.links().sources);
        assert(self.links().targets =~= other.links().targets);
        assert(self.ids_distinct() == other.ids_distinct()) by {
            if self.ids_distinct() {
                assert forall|i: int, j: int| 0 <= i < j < other.nodes.len() implies other.nodes[i].id
                    != other.nodes[j].id by {
                    assert(self.nodes[i].id != self.nodes[j].id);
                }
            }
            if other.ids_distinct() {
                assert forall|i: int, j: int| 0 <= i < j < self.nodes.len() implies self.nodes[i].id
                    != self.nodes[j].id by {
                    assert(other.nodes[i].id != other.nodes[j].id);
                }
            }
        }
    }
}

impl DeepView for Graph {
    type V = GraphView;

    open spec fn deep_view(&self) -> GraphView {
        GraphView {
            plan_name: self.plan_name@,
            nodes: self.nodes.deep_view(),
            edges: self.edges.deep_view(),
        }
    }
}

impl View for Graph {
    type V = GraphView;

    open spec fn view(&self) -> GraphView {
        self.deep_view()
    }
}

/// The index of the first of `nodes` whose id is `id`.
pub fn find_id(nodes: &Vec<Node>, id: &String) -> (found: Option<usize>)
    ensures
        found is Some ==> is_first(nodes.deep_view(), found->0 as int, id@),
        found is Some ==> found->0 as int == first_index(nodes.deep_view(), id@),
        found is Some ==> has_id(nodes.deep_view(), id@),
        found is None ==> !has_id(nodes.deep_view(), id@),
{
    let mut i: usize = 0;
    while i < nodes.len()
        invariant
            i <= nodes.len(),
            forall|j: int| 0 <= j < i ==> nodes.deep_view()[j].id != id@,
        decreases nodes.len() - i,
    {
        if nodes[i].id == *id {
            proof {
                let v = nodes.deep_view();
                assert(is_first(v, i as int, id@));
                assert(node_is(v, i as int, id@));
                lemma_first_index(v, id@);
                let c = first_index(v, id@);
                assert(is_first(v, c, id@));
                assert(c == i);
            }
            return Some(i);
        }
        i += 1;
    }
    proof {
        let v = nodes.deep_view();
        assert forall|j: int| !node_is(v, j, id@) by {}
    }
    None
}

impl Graph {
    /// The index of the first node whose id is `id`.
    pub fn find_node(&self, id: &String) -> (found: Option<usize>)
        ensures
            found is Some <==> self@.has_node(id@),
            found is Some ==> found->0 as int == self@.index_of(id@),
            found is Some ==> is_first(self@.nodes, found->0 as int, id@),
    {
        find_id(&self.nodes, id)
    }

    /// Whether no node id occurs twice.
    pub fn has_distinct_ids(&self) -> (distinct: bool)
        ensures
            distinct == self@.ids_distinct(),
    {
        let mut j: usize = 0;
        while j < self.nodes.len()
            invariant
                j <= self.nodes.len(),
                forall|a: int, b: int| 0 <= a < b < j ==> self@.nodes[a].id != self@.nodes[b].id,
            decreases self.nodes.len() - j,
        {
            let mut i: usize = 0;
            while i < j
                invariant
                    i <= j,
                    j < self.nodes.len(),
                    forall|a: int| 0 <= a < i ==> self@.nodes[a].id != self@.nodes[j as int].id,
                decreases j - i,
            {
                if self.nodes[i].id == self.nodes[j].id {
                    assert(self@.nodes[i as int].id == self@.nodes[j as int].id);
                    return false;
                }
                i += 1;
            }
            j += 1;
        }
        true
    }

    /// The precedence relation over node indices, or `None` where an edge
    /// names an id that no node has.
    pub fn links(&self) -> (links: Option<Links>)
        ensures
            links is Some <==> self@.endpoints_declared(),
            links is Some ==> links->0@ == self@.links(),
            links is Some ==> links->0@.wf(),
    {
        let mut sources: Vec<usize> = Vec::new();
        let mut targets: Vec<usize> = Vec::new();
        let mut e: usize = 0;
        while e < self.edges.len()
            invariant
                e <= self.edges.len(),
                sources.len() == e,
                targets.len() == e,
                forall|d: int| 0 <= d < e ==> self@.has_node(#[trigger] self@.edges[d].source),
                forall|d: int| 0 <= d < e ==> self@.has_node(#[trigger] self@.edges[d].target),
                forall|d: int|
                    0 <= d < e ==> #[trigger] sources@[d] as int == self@.index_of(
                        self@.edges[d].source,
                    ) && sources@[d] < self.nodes.len(),
                forall|d: int|
                    0 <= d < e ==> #[trigger] targets@[d] as int == self@.index_of(
                        self@.edges[d].target,
                    ) && targets@[d] < self.nodes.len(),
            decreases self.edges.len() - e,
        {
            let edge = &self.edges[e];
            let s = find_id(&self.nodes, &edge.source);
            let t = find_id(&self.nodes, &edge.target);
            if s.is_none() || t.is_none() {
                proof {
                    assert(edge@ == self@.edges[e as int]);
                    assert(!self@.has_node(self@.edges[e as int].source) || !self@.has_node(
                        self@.edges[e as int].target,
                    ));
                }
                return None;
            }
            sources.push(s.unwrap());
            targets.push(t.unwrap());
            e += 1;
        }
        let links = Links { node_count: self.nodes.len(), sources, targets };
        proof {
            assert(links@.sources =~= self@.links().sources);
            assert(links@.targets =~= self@.links().targets);
        }
        Some(links)
    }

    /// The canonical topological order of the nodes, as node indices, or
    /// `None` where an edge names an id that no node has or the edges form a
    /// cycle.
    pub fn topological_order(&self) -> (order: Option<Vec<usize>>)
        ensures
            order is Some <==> self@.endpoints_declared() && self@.acyclic(),
            order is Some ==> self@.links().is_canonical(order->0@),
            order is Some ==> self@.links().is_topological(order->0@),
    {
        match self.links() {
            Some(links) => links.topological_order(),
            None => None,
        }
    }
}

} // verus!
