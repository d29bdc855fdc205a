//! Topological ordering of a dependency graph given by node indices.

use vstd::prelude::*;
use crate::graph::lemma_least;

verus! {

/// The precedence relation of a graph over node indices: arc `e` runs from
/// node `sources[e]` to node `targets[e]`.
#[derive(Debug, Clone)]
pub struct Links {
    pub node_count: usize,
    pub sources: Vec<usize>,
    pub targets: Vec<usize>,
}

pub struct LinksView {
    pub node_count: nat,
    pub sources: Seq<usize>,
    pub targets: Seq<usize>,
}

impl View for Links {
    type V = LinksView;

    open spec fn view(&self) -> LinksView {
        LinksView { node_count: self.node_count as nat, sources: self.sources@, targets: self.targets@ }
    }
}

impl LinksView {
    /// Every arc has both ends among the nodes.
    pub open spec fn wf(self) -> bool {
        &&& self.sources.len() == self.targets.len()
        &&& forall|e: int| 0 <= e < self.sources.len() ==> #[trigger] self.sources[e] < self.node_count
        &&& forall|e: int| 0 <= e < self.targets.len() ==> #[trigger] self.targets[e] < self.node_count
    }

    /// Arc `e` ends at node `i` and starts at a node that is not in `placed`.
    pub open spec fn blocks(self, placed: Seq<usize>, i: usize, e: int) -> bool {
        &&& 0 <= e < self.targets.len()
        &&& self.targets[e] == i
        &&& !placed.contains(self.sources[e])
    }

    /// Every predecessor of node `i` is in `placed`.
    pub open spec fn ready(self, placed: Seq<usize>, i: usize) -> bool {
        forall|e: int| !self.blocks(placed, i, e)
    }

    /// Node `i` may be placed next after `placed`: it is not placed yet and
    /// all its predecessors are.
    pub open spec fn placeable(self, placed: Seq<usize>, i: usize) -> bool {
        i < self.node_count && !placed.contains(i) && self.ready(placed, i)
    }

    /// `i` is the placeable node of least index.
    pub open spec fn least_placeable(self, placed: Seq<usize>, i: usize) -> bool {
        &&& self.placeable(placed, i)
        &&& forall|j: usize| j < i ==> !self.placeable(placed, j)
    }

    /// `order` holds every node exactly once.
    pub open spec fn is_arrangement(self, order: Seq<usize>) -> bool {
        &&& order.len() == self.node_count
        &&& order.no_duplicates()
        &&& forall|p: int| 0 <= p < order.len() ==> #[trigger] order[p] < self.node_count
        &&& forall|i: usize| i < self.node_count ==> order.contains(i)
    }

    /// In `order` the start of every arc stands before its end.
    pub open spec fn respects(self, order: Seq<usize>) -> bool {
        forall|e: int, p: int, q: int|
            #![trigger self.targets[e], order[p], order[q]]
            0 <= e < self.targets.len() && 0 <= p < order.len() && 0 <= q < order.len()
                && order[p] == self.targets[e] && order[q] == self.sources[e] ==> q < p
    }

    /// `order` is a topological order of the nodes.
    pub open spec fn is_topological(self, order: Seq<usize>) -> bool {
        self.is_arrangement(order) && self.respects(order)
    }

    /// Some topological order exists: the relation has no cycle.
    pub open spec fn acyclic(self) -> bool {
        exists|order: Seq<usize>| self.is_topological(order)
    }

    /// An arc runs from node `from` to node `to`.
    pub open spec fn has_arc(self, from: usize, to: usize) -> bool {
        exists|e: int|
            0 <= e < self.sources.len() && e < self.targets.len() && self.sources[e] == from
                && self.targets[e] == to
    }

    /// `walk` follows arcs from node to node and ends where it began.
    pub open spec fn is_cycle(self, walk: Seq<usize>) -> bool {
        &&& walk.len() >= 2
        &&& walk.first() == walk.last()
        &&& forall|t: int| 0 <= t < walk.len() - 1 ==> self.has_arc(#[trigger] walk[t], walk[t + 1])
    }

    /// The canonical order of the nodes; meaningful where one exists.
    pub open spec fn canonical_order(self) -> Seq<usize> {
        choose|order: Seq<usize>| self.is_canonical(order)
    }

    /// `order` is the topological order in which every position holds the
    /// node of least index among those whose predecessors all stand before
    /// it. There is at most one such order.
    pub open spec fn is_canonical(self, order: Seq<usize>) -> bool {
        &&& order.len() == self.node_count
        &&& forall|p: int|
            0 <= p < order.len() ==> self.least_placeable(#[trigger] order.take(p), order[p])
    }
}

/// Fewer than `n` distinct indices below `n` leave one of them out.
proof fn lemma_some_index_missing(placed: Seq<usize>, n: nat) -> (i: usize)
    requires
        placed.len() < n,
        n <= usize::MAX,
        placed.no_duplicates(),
    ensures
        i < n,
        !placed.contains(i),
{
    let image = Set::new(|i: int| 0 <= i < n);
    vstd::set_lib::lemma_int_range(0, n as int);
    assert(image =~= vstd::set_lib::set_int_range(0, n as int));
    if forall|i: usize| i < n ==> placed.contains(i) {
        let placed_ints = placed.map_values(|i: usize| i as int);
        assert(placed_ints.no_duplicates());
        placed_ints.unique_seq_to_set();
        assert(image.subset_of(placed_ints.to_set())) by {
            assert forall|i: int| image.contains(i) implies placed_ints.to_set().contains(i) by {
                let u = i as usize;
                assert(placed.contains(u));
                let p = choose|p: int| 0 <= p < placed.len() && placed[p] == u;
                assert(placed_ints[p] == i);
            }
        }
        vstd::set_lib::lemma_len_subset(image, placed_ints.to_set());
        assert(false);
    }
    choose|i: usize| i < n && !placed.contains(i)
}

/// As many distinct indices below `n` as there are nodes hold every one.
proof fn lemma_all_indices_present(order: Seq<usize>, n: nat)
    requires
        order.len() == n,
        order.no_duplicates(),
        forall|p: int| 0 <= p < order.len() ==> #[trigger] order[p] < n,
    ensures
        forall|i: usize| i < n ==> order.contains(i),
{
    let image = Set::new(|i: int| 0 <= i < n);
    vstd::set_lib::lemma_int_range(0, n as int);
    assert(image =~= vstd::set_lib::set_int_range(0, n as int));
    let ints = order.map_values(|i: usize| i as int);
    assert(ints.no_duplicates());
    ints.unique_seq_to_set();
    assert(ints.to_set().subset_of(image)) by {
        assert forall|i: int| ints.to_set().contains(i) implies image.contains(i) by {
            let p = choose|p: int| 0 <= p < ints.len() && ints[p] == i;
            assert(order[p] < n);
        }
    }
    vstd::set_lib::lemma_subset_equality(ints.to_set(), image);
    assert forall|i: usize| i < n implies order.contains(i) by {
        assert(image.contains(i as int));
        assert(ints.to_set().contains(i as int));
        let p = choose|p: int| 0 <= p < ints.len() && ints[p] == i as int;
        assert(order[p] == i);
    }
}

impl LinksView {
    /// The canonical order is a topological order.
    pub proof fn lemma_canonical_is_topological(self, order: Seq<usize>)
        requires
            self.wf(),
            self.is_canonical(order),
        ensures
            self.is_topological(order),
    {
        assert forall|p: int, q: int| 0 <= p < q < order.len() implies order[p] != order[q] by {
            assert(self.least_placeable(order.take(q), order[q]));
            assert(order.take(q)[p] == order[p]);
        }
        assert forall|p: int| 0 <= p < order.len() implies #[trigger] order[p]
            < self.node_count by {
            assert(self.least_placeable(order.take(p), order[p]));
        }
        lemma_all_indices_present(order, self.node_count);
        assert forall|e: int, p: int, q: int|
            #![trigger self.targets[e], order[p], order[q]]
            0 <= e < self.targets.len() && 0 <= p < order.len() && 0 <= q < order.len()
                && order[p] == self.targets[e] && order[q] == self.sources[e] implies q < p by {
            assert(self.least_placeable(order.take(p), order[p]));
            assert(!self.blocks(order.take(p), order[p], e));
            let before = choose|r: int|
                0 <= r < order.take(p).len() && order.take(p)[r] == self.sources[e];
            assert(order[before] == order[q]);
        }
    }

    /// In a topological order, a walk along arcs moves to ever later
    /// positions.
    proof fn lemma_walk_moves_on(self, order: Seq<usize>, walk: Seq<usize>, t: int) -> (at: (
        int,
        int,
    ))
        requires
            self.wf(),
            self.is_topological(order),
            walk.len() >= 2,
            forall|k: int| 0 <= k < walk.len() - 1 ==> self.has_arc(#[trigger] walk[k], walk[k + 1]),
            1 <= t < walk.len(),
        ensures
            0 <= at.0 < at.1 < order.len(),
            order[at.0] == walk[0],
            order[at.1] == walk[t],
        decreases t,
    {
        assert(self.has_arc(walk[t - 1], walk[t - 1 + 1]));
        let e = choose|e: int|
            0 <= e < self.sources.len() && e < self.targets.len() && self.sources[e] == walk[t - 1]
                && self.targets[e] == walk[t];
        assert(self.sources[e] < self.node_count);
        assert(self.targets[e] < self.node_count);
        assert(order.contains(walk[t]));
        assert(order.contains(walk[t - 1]));
        let p = choose|p: int| 0 <= p < order.len() && order[p] == walk[t];
        let q = choose|q: int| 0 <= q < order.len() && order[q] == walk[t - 1];
        assert(order[p] == self.targets[e] && order[q] == self.sources[e]);
        assert(q < p);
        if t == 1 {
            (q, p)
        } else {
            let earlier = self.lemma_walk_moves_on(order, walk, t - 1);
            assert(order[earlier.1] == order[q]);
            (earlier.0, p)
        }
    }

    /// A relation with a cycle has no topological order.
    pub proof fn lemma_cycle_not_acyclic(self, walk: Seq<usize>)
        requires
            self.wf(),
            self.is_cycle(walk),
        ensures
            !self.acyclic(),
    {
        if self.acyclic() {
            let order = choose|order: Seq<usize>| self.is_topological(order);
            let at = self.lemma_walk_moves_on(order, walk, walk.len() - 1);
            assert(order[at.0] == order[at.1]);
            assert(false);
        }
    }

    /// Where some topological order exists, so does the canonical one.
    pub proof fn lemma_acyclic_has_canonical(self)
        requires
            self.wf(),
            self.node_count <= usize::MAX,
            self.acyclic(),
        ensures
            self.is_canonical(self.canonical_order()),
    {
        let placed = self.lemma_place_or_stick(self.node_count);
        if placed.len() < self.node_count && self.is_stuck(placed) {
            self.lemma_stuck_is_cyclic(placed);
        }
        assert(self.is_canonical(placed));
    }

    /// Two canonical orders agree on every prefix.
    proof fn lemma_canonical_prefix(self, a: Seq<usize>, b: Seq<usize>, p: int)
        requires
            self.is_canonical(a),
            self.is_canonical(b),
            0 <= p <= self.node_count,
        ensures
            a.take(p) == b.take(p),
        decreases p,
    {
        if p == 0 {
            assert(a.take(0) =~= b.take(0));
        } else {
            self.lemma_canonical_prefix(a, b, p - 1);
            assert(self.least_placeable(a.take(p - 1), a[p - 1]));
            assert(self.least_placeable(b.take(p - 1), b[p - 1]));
            assert(a[p - 1] == b[p - 1]);
            assert(a.take(p) =~= a.take(p - 1).push(a[p - 1]));
            assert(b.take(p) =~= b.take(p - 1).push(b[p - 1]));
        }
    }

    /// There is at most one canonical order.
    pub proof fn lemma_canonical_unique(self, order: Seq<usize>)
        requires
            self.is_canonical(order),
        ensures
            order == self.canonical_order(),
    {
        let other = self.canonical_order();
        self.lemma_canonical_prefix(order, other, self.node_count as int);
        assert(order.take(self.node_count as int) =~= order);
        assert(other.take(self.node_count as int) =~= other);
    }

    /// Where nodes are left and none of them is placeable, no topological
    /// order exists.
    pub proof fn lemma_stuck_is_cyclic(self, placed: Seq<usize>)
        requires
            self.wf(),
            self.node_count <= usize::MAX,
            placed.len() < self.node_count,
            placed.no_duplicates(),
            forall|i: usize| i < self.node_count ==> !self.placeable(placed, i),
        ensures
            !self.acyclic(),
    {
        if self.acyclic() {
            let order = choose|order: Seq<usize>| self.is_topological(order);
            let missing = lemma_some_index_missing(placed, self.node_count);
            assert(order.contains(missing));
            let at = choose|p: int| 0 <= p < order.len() && order[p] == missing;
            let unplaced = |p: int| 0 <= p < order.len() && !placed.contains(order[p]);
            assert(unplaced(at));
            let first = lemma_least(unplaced, at);
            let v = order[first];
            assert(unplaced(first));
            assert(!self.placeable(placed, v));
            assert(!self.ready(placed, v));
            let e = choose|e: int| self.blocks(placed, v, e);
            assert(self.blocks(placed, v, e));
            let s = self.sources[e];
            assert(order.contains(s));
            let q = choose|q: int| 0 <= q < order.len() && order[q] == s;
            assert(order[first] == self.targets[e] && order[q] == self.sources[e]);
            assert(q < first);
            assert(unplaced(q));
            assert(false);
        }
    }
}

impl Links {
    /// Whether every predecessor of node `i` is marked in `placed_marks`.
    fn is_ready(&self, placed_marks: &Vec<bool>, i: usize, Ghost(placed): Ghost<Seq<usize>>) -> (ready:
        bool)
        requires
            self@.wf(),
            i < self.node_count,
            placed_marks.len() == self.node_count,
            forall|j: usize| j < self.node_count ==> (placed_marks@[j as int] <==> placed.contains(j)),
        ensures
            ready == self@.ready(placed, i),
    {
        let mut e: usize = 0;
        while e < self.targets.len()
            invariant
                self@.wf(),
                e <= self.targets.len(),
                placed_marks.len() == self.node_count,
                forall|j: usize|
                    j < self.node_count ==> (placed_marks@[j as int] <==> placed.contains(j)),
                forall|d: int| 0 <= d < e ==> !self@.blocks(placed, i, d),
            decreases self.targets.len() - e,
        {
            if self.targets[e] == i && !placed_marks[self.sources[e]] {
                assert(self@.blocks(placed, i, e as int));
                return false;
            }
            e += 1;
        }
        true
    }

    /// The canonical topological order of the nodes, or `None` where the
    /// relation has a cycle.
    pub fn topological_order(&self) -> (order: Option<Vec<usize>>)
        requires
            self@.wf(),
        ensures
            order is Some <==> self@.acyclic(),
            order is Some ==> self@.is_canonical(order->0@),
            order is Some ==> self@.is_topological(order->0@),
    {
        let n = self.node_count;
        let mut placed_marks: Vec<bool> = Vec::new();
        let mut k: usize = 0;
        while k < n
            invariant
                k <= n,
                placed_marks.len() == k,
                forall|j: int| 0 <= j < k ==> !placed_marks@[j],
            decreases n - k,
        {
            placed_marks.push(false);
            k += 1;
        }
        let mut order: Vec<usize> = Vec::new();
        let mut p: usize = 0;
        while p < n
            invariant
                self@.wf(),
                n == self.node_count,
                p <= n,
                order.len() == p,
                placed_marks.len() == n,
                order@.no_duplicates(),
                forall|j: usize| j < n ==> (placed_marks@[j as int] <==> order@.contains(j)),
                forall|q: int|
                    0 <= q < p ==> self@.least_placeable(#[trigger] order@.take(q), order@[q]),
            decreases n - p,
        {
            let mut i: usize = 0;
            let mut found: bool = false;
            while i < n && !found
                invariant
                    self@.wf(),
                    n == self.node_count,
                    i <= n,
                    placed_marks.len() == n,
                    forall|j: usize| j < n ==> (placed_marks@[j as int] <==> order@.contains(j)),
                    forall|j: usize| j < i ==> !self@.placeable(order@, j),
                    found ==> i < n && self@.placeable(order@, i),
                decreases n - i, if found { 0int } else { 1int },
            {
                if !placed_marks[i] && self.is_ready(&placed_marks, i, Ghost(order@)) {
                    found = true;
                } else {
                    i += 1;
                }
            }
            if !found {
                proof {
                    self@.lemma_stuck_is_cyclic(order@);
                }
                return None;
            }
            let ghost before = order@;
            placed_marks.set(i, true);
            order.push(i);
            proof {
                assert(order@.take(p as int) =~= before);
                assert forall|q: int| 0 <= q < p + 1 implies self@.least_placeable(
                    #[trigger] order@.take(q),
                    order@[q],
                ) by {
                    if q < p {
                        assert(order@.take(q) =~= before.take(q));
                    }
                }
                assert forall|j: usize| j < n implies (placed_marks@[j as int] <==> order@.contains(
                    j,
                )) by {
                    if before.contains(j) {
                        let r = choose|r: int| 0 <= r < before.len() && before[r] == j;
                        assert(order@[r] == j);
                    }
                    if j == i {
                        assert(order@[p as int] == j);
                    }
                }
            }
            p += 1;
        }
        proof {
            assert(order@.take(n as int) =~= order@);
            self@.lemma_canonical_is_topological(order@);
        }
        Some(order)
    }
}

/// More indices below `n` than `n` hold one of them twice.
proof fn lemma_some_index_twice(walk: Seq<usize>, n: nat) -> (at: (int, int))
    requires
        walk.len() > n,
        forall|k: int| 0 <= k < walk.len() ==> #[trigger] walk[k] < n,
    ensures
        0 <= at.0 < at.1 < walk.len(),
        walk[at.0] == walk[at.1],
{
    if walk.no_duplicates() {
        let image = Set::new(|i: int| 0 <= i < n);
        vstd::set_lib::lemma_int_range(0, n as int);
        assert(image =~= vstd::set_lib::set_int_range(0, n as int));
        let ints = walk.map_values(|i: usize| i as int);
        assert(ints.no_duplicates());
        ints.unique_seq_to_set();
        assert(ints.to_set().subset_of(image)) by {
            assert forall|i: int| ints.to_set().contains(i) implies image.contains(i) by {
                let k = choose|k: int| 0 <= k < ints.len() && ints[k] == i;
                assert(walk[k] < n);
            }
        }
        vstd::set_lib::lemma_len_subset(ints.to_set(), image);
        assert(false);
    }
    let (a, b) = choose|a: int, b: int|
        0 <= a < walk.len() && 0 <= b < walk.len() && a != b && walk[a] == walk[b];
    if a < b {
        (a, b)
    } else {
        (b, a)
    }
}

impl LinksView {
    /// No node outside `placed` is ready: each has a predecessor outside
    /// `placed`.
    pub open spec fn is_stuck(self, placed: Seq<usize>) -> bool {
        forall|i: usize| i < self.node_count ==> !self.placeable(placed, i)
    }

    /// A predecessor of node `i` that is not in `placed`; meaningful where
    /// `i` is not ready.
    pub open spec fn holdup(self, placed: Seq<usize>, i: usize) -> usize {
        self.sources[choose|e: int| self.blocks(placed, i, e)]
    }

    /// The node reached from `v` by stepping `k` times from a node to its
    /// holdup.
    pub open spec fn traced(self, placed: Seq<usize>, v: usize, k: nat) -> usize
        decreases k,
    {
        if k == 0 {
            v
        } else {
            self.holdup(placed, self.traced(placed, v, (k - 1) as nat))
        }
    }

    /// Where the placing is stuck, tracing back from a node that is left
    /// stays among the nodes that are left, and every step goes against an
    /// arc.
    proof fn lemma_traced(self, placed: Seq<usize>, v: usize, k: nat)
        requires
            self.wf(),
            self.is_stuck(placed),
            v < self.node_count,
            !placed.contains(v),
        ensures
            self.traced(placed, v, k) < self.node_count,
            !placed.contains(self.traced(placed, v, k)),
            k > 0 ==> self.has_arc(
                self.traced(placed, v, k),
                self.traced(placed, v, (k - 1) as nat),
            ),
        decreases k,
    {
        if k > 0 {
            self.lemma_traced(placed, v, (k - 1) as nat);
            let i = self.traced(placed, v, (k - 1) as nat);
            assert(!self.placeable(placed, i));
            assert(!self.ready(placed, i));
            let e = choose|e: int| self.blocks(placed, i, e);
            assert(self.blocks(placed, i, e));
            assert(self.sources[e] < self.node_count);
        }
    }

    /// The longest canonical placing: either it is stuck before every node
    /// is placed, or it places `len` nodes.
    proof fn lemma_place_or_stick(self, len: nat) -> (placed: Seq<usize>)
        requires
            self.node_count <= usize::MAX,
            len <= self.node_count,
        ensures
            placed.no_duplicates(),
            (placed.len() < self.node_count && self.is_stuck(placed)) || (placed.len() == len
                && forall|p: int|
                0 <= p < len ==> self.least_placeable(#[trigger] placed.take(p), placed[p])),
        decreases len,
    {
        if len == 0 {
            Seq::empty()
        } else {
            let shorter = self.lemma_place_or_stick((len - 1) as nat);
            if shorter.len() < self.node_count && self.is_stuck(shorter) {
                shorter
            } else {
                let some = choose|i: usize| i < self.node_count && self.placeable(shorter, i);
                let holds = |i: int| 0 <= i < self.node_count && self.placeable(shorter, i as usize);
                assert(holds(some as int));
                let least = lemma_least(holds, some as int);
                assert(holds(least));
                let next = least as usize;
                assert forall|j: usize| j < next implies !self.placeable(shorter, j) by {
                    assert(!holds(j as int));
                }
                let placed = shorter.push(next);
                assert(placed.take(len - 1) =~= shorter);
                assert forall|p: int| 0 <= p < len implies self.least_placeable(
                    #[trigger] placed.take(p),
                    placed[p],
                ) by {
                    if p < len - 1 {
                        assert(placed.take(p) =~= shorter.take(p));
                    }
                }
                placed
            }
        }
    }

    /// A relation without a topological order has a cycle. With
    /// `lemma_cycle_not_acyclic`: the relation is acyclic exactly when no
    /// walk along its arcs returns to where it began.
    pub proof fn lemma_not_acyclic_has_cycle(self) -> (walk: Seq<usize>)
        requires
            self.wf(),
            self.node_count <= usize::MAX,
            !self.acyclic(),
        ensures
            self.is_cycle(walk),
    {
        let n = self.node_count;
        let placed = self.lemma_place_or_stick(n);
        if !(placed.len() < n && self.is_stuck(placed)) {
            assert(self.is_canonical(placed));
            self.lemma_canonical_is_topological(placed);
            assert(false);
        }
        let v = lemma_some_index_missing(placed, n);
        let trace = Seq::new(n + 1, |k: int| self.traced(placed, v, k as nat));
        assert forall|k: int| 0 <= k < trace.len() implies #[trigger] trace[k] < n by {
            self.lemma_traced(placed, v, k as nat);
        }
        let (a, b) = lemma_some_index_twice(trace, n);
        let walk = Seq::new((b - a + 1) as nat, |t: int| trace[b - t]);
        assert forall|t: int| 0 <= t < walk.len() - 1 implies self.has_arc(
            #[trigger] walk[t],
            walk[t + 1],
        ) by {
            self.lemma_traced(placed, v, (b - t) as nat);
        }
        walk
    }
}

} // verus!
