//! The dependency resolver: which nodes may run, given the outcomes recorded
//! so far.

use vstd::prelude::*;
use crate::condition::{condition_holds, evaluate};
use crate::graph::{Graph, GraphView};
use crate::outcomes::Outcomes;

verus! {

/// Edge `e` ends at node `i`.
pub open spec fn inbound(g: GraphView, e: int, i: int) -> bool {
    &&& 0 <= e < g.edges.len()
    &&& 0 <= i < g.nodes.len()
    &&& g.edges[e].target == g.nodes[i].id
}

/// The source of edge `e` has run, and the condition of the edge holds of
/// the outcome that it recorded.
pub open spec fn edge_satisfied(g: GraphView, outcomes: Map<Seq<char>, Seq<char>>, e: int) -> bool {
    &&& outcomes.dom().contains(g.edges[e].source)
    &&& condition_holds(outcomes[g.edges[e].source], g.edges[e].condition)
}

/// Node `i` may run: it has not run yet, and every inbound edge is
/// satisfied.
pub open spec fn eligible(g: GraphView, outcomes: Map<Seq<char>, Seq<char>>, i: int) -> bool {
    &&& 0 <= i < g.nodes.len()
    &&& !outcomes.dom().contains(g.nodes[i].id)
    &&& forall|e: int| inbound(g, e, i) ==> edge_satisfied(g, outcomes, e)
}

/// `eligible` as a predicate on node indices.
pub open spec fn eligible_at(g: GraphView, outcomes: Map<Seq<char>, Seq<char>>) -> spec_fn(
    usize,
) -> bool {
    |i: usize| eligible(g, outcomes, i as int)
}

/// The frontier: the eligible nodes, in visitation order.
pub open spec fn frontier_of(
    g: GraphView,
    outcomes: Map<Seq<char>, Seq<char>>,
    order: Seq<usize>,
) -> Seq<usize> {
    order.filter(eligible_at(g, outcomes))
}

/// The node to run next: the first of the frontier, if any.
pub open spec fn next_of(
    g: GraphView,
    outcomes: Map<Seq<char>, Seq<char>>,
    order: Seq<usize>,
) -> Option<usize> {
    if frontier_of(g, outcomes, order).len() > 0 {
        Some(frontier_of(g, outcomes, order)[0])
    } else {
        None
    }
}

/// A node without inbound edges is eligible before anything has run.
pub proof fn lemma_root_is_eligible(g: GraphView, i: int)
    requires
        0 <= i < g.nodes.len(),
        forall|e: int| !inbound(g, e, i),
    ensures
        eligible(g, Map::empty(), i),
{
}

/// A node that has run is never eligible again, whatever is recorded after.
pub proof fn lemma_executed_not_eligible(g: GraphView, outcomes: Map<Seq<char>, Seq<char>>, i: int)
    requires
        0 <= i < g.nodes.len(),
        outcomes.dom().contains(g.nodes[i].id),
    ensures
        !eligible(g, outcomes, i),
{
}

/// The nodes of one frontier do not wait for each other: recording the
/// outcome of one of them leaves every other one eligible. So they may run
/// in any order, or at the same time, and their outcomes may be merged one
/// by one as they arrive.
pub proof fn lemma_frontier_nodes_independent(
    g: GraphView,
    outcomes: Map<Seq<char>, Seq<char>>,
    i: int,
    j: int,
    output: Seq<char>,
)
    requires
        eligible(g, outcomes, i),
        eligible(g, outcomes, j),
        g.nodes[i].id != g.nodes[j].id,
    ensures
        eligible(g, outcomes.insert(g.nodes[i].id, output), j),
{
    let later = outcomes.insert(g.nodes[i].id, output);
    assert forall|e: int| inbound(g, e, j) implies edge_satisfied(g, later, e) by {
        assert(edge_satisfied(g, outcomes, e));
    }
}

/// The frontier holds exactly the eligible nodes of the order, each as often
/// as the order holds it.
pub proof fn lemma_frontier_members(
    g: GraphView,
    outcomes: Map<Seq<char>, Seq<char>>,
    order: Seq<usize>,
    i: usize,
)
    ensures
        frontier_of(g, outcomes, order).contains(i) <==> (order.contains(i) && eligible(
            g,
            outcomes,
            i as int,
        )),
{
    let pred = eligible_at(g, outcomes);
    let f = order.filter(pred);
    if f.contains(i) {
        let k = choose|k: int| 0 <= k < f.len() && f[k] == i;
        order.lemma_filter_pred(pred, k);
        order.lemma_filter_contains_rev(pred, i);
    }
    if order.contains(i) && eligible(g, outcomes, i as int) {
        let k = choose|k: int| 0 <= k < order.len() && order[k] == i;
        assert(pred(order[k]));
        order.lemma_filter_contains(pred, k);
    }
}

/// Whether node `i` may run.
pub fn is_eligible(graph: &Graph, outcomes: &Outcomes, i: usize) -> (may_run: bool)
    ensures
        may_run == eligible(graph@, outcomes@, i as int),
{
    if i >= graph.nodes.len() {
        return false;
    }
    let id = &graph.nodes[i].id;
    if outcomes.contains_key(id) {
        return false;
    }
    let mut e: usize = 0;
    while e < graph.edges.len()
        invariant
            e <= graph.edges.len(),
            i < graph.nodes.len(),
            id@ == graph@.nodes[i as int].id,
            forall|d: int|
                0 <= d < e && inbound(graph@, d, i as int) ==> edge_satisfied(
                    graph@,
                    outcomes@,
                    d,
                ),
        decreases graph.edges.len() - e,
    {
        let edge = &graph.edges[e];
        assert(edge@ == graph@.edges[e as int]);
        if edge.target == *id {
            let satisfied = match outcomes.get(&edge.source) {
                None => false,
                Some(outcome) => {
                    let condition: Option<&str> = match &edge.condition {
                        Some(c) => Some(c.as_str()),
                        None => None,
                    };
                    evaluate(outcome.as_str(), condition)
                },
            };
            if !satisfied {
                assert(inbound(graph@, e as int, i as int));
                assert(!edge_satisfied(graph@, outcomes@, e as int));
                return false;
            }
        }
        e += 1;
    }
    true
}

/// The frontier: the indices of the nodes that may run, in visitation order.
/// An entry of `order` that is no node index is passed over.
pub fn frontier(graph: &Graph, outcomes: &Outcomes, order: &Vec<usize>) -> (nodes: Vec<usize>)
    ensures
        nodes@ == frontier_of(graph@, outcomes@, order@),
{
    let ghost pred = eligible_at(graph@, outcomes@);
    let mut nodes: Vec<usize> = Vec::new();
    let mut p: usize = 0;
    proof {
        reveal(Seq::filter);
        assert(order@.take(0).filter(pred) =~= Seq::<usize>::empty());
    }
    while p < order.len()
        invariant
            p <= order.len(),
            pred == eligible_at(graph@, outcomes@),
            nodes@ == order@.take(p as int).filter(pred),
        decreases order.len() - p,
    {
        let i = order[p];
        proof {
            reveal(Seq::filter);
            assert(order@.take(p as int + 1).drop_last() =~= order@.take(p as int));
            assert(order@.take(p as int + 1).last() == i);
        }
        if is_eligible(graph, outcomes, i) {
            nodes.push(i);
        }
        p += 1;
    }
    proof {
        assert(order@.take(p as int) =~= order@);
    }
    nodes
}

/// The node to run next: the first node of the frontier, if any.
pub fn next_node(graph: &Graph, outcomes: &Outcomes, order: &Vec<usize>) -> (next: Option<usize>)
    ensures
        next == next_of(graph@, outcomes@, order@),
{
    let nodes = frontier(graph, outcomes, order);
    if nodes.len() > 0 {
        Some(nodes[0])
    } else {
        None
    }
}

/// Node `i` may be taken up by a worker: it is eligible, and no worker runs
/// it yet.
pub open spec fn admissible_at(
    g: GraphView,
    outcomes: Map<Seq<char>, Seq<char>>,
    in_flight: Seq<usize>,
) -> spec_fn(usize) -> bool {
    |i: usize| eligible(g, outcomes, i as int) && !in_flight.contains(i)
}

/// The number of workers that are free in a pool of `pool_size` workers of
/// which `running` are at work.
pub open spec fn free_workers(pool_size: usize, running: nat) -> nat {
    if pool_size > running {
        (pool_size - running) as nat
    } else {
        0
    }
}

/// What a bounded pool of workers pulls from the frontier: the eligible
/// nodes that no worker runs yet, in visitation order, as many as there are
/// free workers.
pub open spec fn admissible_of(
    g: GraphView,
    outcomes: Map<Seq<char>, Seq<char>>,
    order: Seq<usize>,
    in_flight: Seq<usize>,
    pool_size: usize,
) -> Seq<usize> {
    let waiting = order.filter(admissible_at(g, outcomes, in_flight));
    let free = free_workers(pool_size, in_flight.len());
    if waiting.len() <= free {
        waiting
    } else {
        waiting.take(free as int)
    }
}

/// A pool never takes up more nodes than it has free workers, and every node
/// that it takes up is eligible and not in flight.
pub proof fn lemma_admissible_members(
    g: GraphView,
    outcomes: Map<Seq<char>, Seq<char>>,
    order: Seq<usize>,
    in_flight: Seq<usize>,
    pool_size: usize,
    k: int,
)
    requires
        0 <= k < admissible_of(g, outcomes, order, in_flight, pool_size).len(),
    ensures
        admissible_of(g, outcomes, order, in_flight, pool_size).len() <= free_workers(
            pool_size,
            in_flight.len(),
        ),
        in_flight.len() + admissible_of(g, outcomes, order, in_flight, pool_size).len()
            <= pool_size,
        eligible(g, outcomes, admissible_of(g, outcomes, order, in_flight, pool_size)[k] as int),
        !in_flight.contains(admissible_of(g, outcomes, order, in_flight, pool_size)[k]),
{
    order.lemma_filter_pred(admissible_at(g, outcomes, in_flight), k);
}

/// Whether `node` is among `in_flight`.
fn is_in_flight(in_flight: &Vec<usize>, node: usize) -> (running: bool)
    ensures
        running == in_flight@.contains(node),
{
    let mut k: usize = 0;
    while k < in_flight.len()
        invariant
            k <= in_flight.len(),
            forall|j: int| 0 <= j < k ==> in_flight@[j] != node,
        decreases in_flight.len() - k,
    {
        if in_flight[k] == node {
            return true;
        }
        k += 1;
    }
    false
}

/// The nodes that a pool of `pool_size` workers may take up now, given the
/// nodes that its workers run already: the first eligible nodes in
/// visitation order that no worker runs, one per free worker. The nodes
/// that are returned are independent of each other and of those in flight,
/// so a node that blocks on a remote agent holds back none of them.
pub fn admissible(
    graph: &Graph,
    outcomes: &Outcomes,
    order: &Vec<usize>,
    in_flight: &Vec<usize>,
    pool_size: usize,
) -> (nodes: Vec<usize>)
    ensures
        nodes@ == admissible_of(graph@, outcomes@, order@, in_flight@, pool_size),
{
    let ghost pred = admissible_at(graph@, outcomes@, in_flight@);
    let free: usize = if pool_size > in_flight.len() {
        pool_size - in_flight.len()
    } else {
        0
    };
    let mut nodes: Vec<usize> = Vec::new();
    let mut p: usize = 0;
    proof {
        reveal(Seq::filter);
        assert(order@.take(0).filter(pred) =~= Seq::<usize>::empty());
    }
    while p < order.len()
        invariant
            p <= order.len(),
            pred == admissible_at(graph@, outcomes@, in_flight@),
            free == free_workers(pool_size, in_flight@.len()),
            order@.take(p as int).filter(pred).len() <= free ==> nodes@ == order@.take(
                p as int,
            ).filter(pred),
            order@.take(p as int).filter(pred).len() > free ==> nodes@ == order@.take(
                p as int,
            ).filter(pred).take(free as int),
        decreases order.len() - p,
    {
        let i = order[p];
        let ghost before = order@.take(p as int).filter(pred);
        proof {
            reveal(Seq::filter);
            assert(order@.take(p as int + 1).drop_last() =~= order@.take(p as int));
            assert(order@.take(p as int + 1).last() == i);
        }
        if nodes.len() < free && is_eligible(graph, outcomes, i) && !is_in_flight(in_flight, i) {
            nodes.push(i);
        } else {
            proof {
                if pred(i) {
                    assert(before.push(i).take(free as int) =~= before.take(free as int));
                }
            }
        }
        p += 1;
    }
    proof {
        assert(order@.take(p as int) =~= order@);
    }
    nodes
}

} // verus!
