//! The outcome aggregator: the final outcome of a plan.
//!
//! A terminal node is one that no edge leaves. The final outcome of a plan is
//! the output of the terminal node that ran and stands last in visitation
//! order; where no terminal node ran it is empty. So where exactly one
//! terminal node ran, the final outcome is its output.

use vstd::prelude::*;
use crate::graph::{Graph, GraphView};
use crate::outcomes::Outcomes;

verus! {

/// No edge leaves node `i`.
pub open spec fn terminal(g: GraphView, i: int) -> bool {
    &&& 0 <= i < g.nodes.len()
    &&& forall|e: int| 0 <= e < g.edges.len() ==> (#[trigger] g.edges[e]).source != g.nodes[i].id
}

/// Node `i` is terminal and has run.
pub open spec fn executed_terminal(
    g: GraphView,
    outcomes: Map<Seq<char>, Seq<char>>,
    i: int,
) -> bool {
    terminal(g, i) && outcomes.dom().contains(g.nodes[i].id)
}

/// `executed_terminal` as a predicate on node indices.
pub open spec fn executed_terminal_at(
    g: GraphView,
    outcomes: Map<Seq<char>, Seq<char>>,
) -> spec_fn(usize) -> bool {
    |i: usize| executed_terminal(g, outcomes, i as int)
}

/// The terminal nodes that ran, in visitation order.
pub open spec fn executed_terminals(
    g: GraphView,
    outcomes: Map<Seq<char>, Seq<char>>,
    order: Seq<usize>,
) -> Seq<usize> {
    order.filter(executed_terminal_at(g, outcomes))
}

/// The final outcome: the output of the last terminal node that ran, or
/// empty where none ran.
pub open spec fn final_outcome_of(
    g: GraphView,
    outcomes: Map<Seq<char>, Seq<char>>,
    order: Seq<usize>,
) -> Seq<char> {
    let ran = executed_terminals(g, outcomes, order);
    if ran.len() == 0 {
        Seq::empty()
    } else {
        outcomes[g.nodes[ran.last() as int].id]
    }
}

/// Where exactly one terminal node ran, the final outcome is its output.
pub proof fn lemma_single_terminal(
    g: GraphView,
    outcomes: Map<Seq<char>, Seq<char>>,
    order: Seq<usize>,
    i: usize,
)
    requires
        order.contains(i),
        executed_terminal(g, outcomes, i as int),
        forall|j: usize| j != i ==> !executed_terminal(g, outcomes, j as int),
    ensures
        final_outcome_of(g, outcomes, order) == outcomes[g.nodes[i as int].id],
{
    let pred = executed_terminal_at(g, outcomes);
    let ran = order.filter(pred);
    let k = choose|k: int| 0 <= k < order.len() && order[k] == i;
    assert(pred(order[k]));
    order.lemma_filter_contains(pred, k);
    order.lemma_filter_pred(pred, ran.len() - 1);
}

/// Whether no edge leaves node `i`.
pub fn is_terminal(graph: &Graph, i: usize) -> (none_leaves: bool)
    ensures
        none_leaves == terminal(graph@, i as int),
{
    if i >= graph.nodes.len() {
        return false;
    }
    let id = &graph.nodes[i].id;
    let mut e: usize = 0;
    while e < graph.edges.len()
        invariant
            e <= graph.edges.len(),
            i < graph.nodes.len(),
            id@ == graph@.nodes[i as int].id,
            forall|d: int| 0 <= d < e ==> (#[trigger] graph@.edges[d]).source != id@,
        decreases graph.edges.len() - e,
    {
        if graph.edges[e].source == *id {
            assert(graph@.edges[e as int].source == id@);
            return false;
        }
        e += 1;
    }
    true
}

/// The final outcome of a plan, from the outcomes recorded.
pub fn aggregate(graph: &Graph, outcomes: &Outcomes, order: &Vec<usize>) -> (outcome: String)
    ensures
        outcome@ == final_outcome_of(graph@, outcomes@, order@),
{
    let ghost pred = executed_terminal_at(graph@, outcomes@);
    let mut last: Option<usize> = None;
    let mut p: usize = 0;
    proof {
        reveal(Seq::filter);
        assert(order@.take(0).filter(pred) =~= Seq::<usize>::empty());
    }
    while p < order.len()
        invariant
            p <= order.len(),
            pred == executed_terminal_at(graph@, outcomes@),
            last is None <==> order@.take(p as int).filter(pred).len() == 0,
            last is Some ==> order@.take(p as int).filter(pred).last() == last->0,
            last is Some ==> executed_terminal(graph@, outcomes@, last->0 as int),
        decreases order.len() - p,
    {
        let i = order[p];
        proof {
            reveal(Seq::filter);
            assert(order@.take(p as int + 1).drop_last() =~= order@.take(p as int));
            assert(order@.take(p as int + 1).last() == i);
        }
        if is_terminal(graph, i) && outcomes.contains_key(&graph.nodes[i].id) {
            last = Some(i);
        }
        p += 1;
    }
    proof {
        assert(order@.take(p as int) =~= order@);
    }
    match last {
        None => String::new(),
        Some(i) => {
            match outcomes.get(&graph.nodes[i].id) {
                Some(output) => output.clone(),
                None => String::new(),
            }
        },
    }
}

} // verus!
