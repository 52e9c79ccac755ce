use vstd::prelude::*;

use crate::graph::{
    edges_at, lemma_edges_at_members, targets, Edge, EdgeClass, Graph, GraphEdge, GraphNode,
    NodeIndex,
};
use crate::nodes::{NodeError, SyncNode};
use crate::value::{Value, ValueModel};

verus! {

/// The unit of work: run the node at this index.
#[derive(Debug, Clone, Copy, PartialEq, Eq, Structural)]
pub struct ExecutionStep(pub NodeIndex);

/// Why a step could not run.
#[derive(Debug)]
pub enum ExecutionStepError {
    /// A referenced node does not exist.
    NoWeight,
    /// A node exists but is of the wrong kind for its position.
    InvalidWeight,
    /// The node itself failed.
    NodeError(NodeError),
}

/// The slot of a `DataMap` edge.
pub open spec fn slot_of(w: GraphEdge) -> usize {
    match w {
        GraphEdge::DataMap(slot) => slot,
        _ => 0,
    }
}

/// The (slot, source) pairs of a sequence of edges.
pub open spec fn input_pairs(es: Seq<Edge>) -> Seq<(usize, NodeIndex)> {
    es.map_values(|e: Edge| (slot_of(e.weight), e.source))
}

/// `s` with `x` placed after every pair whose slot is not greater than its own.
pub open spec fn insert_by_slot(s: Seq<(usize, NodeIndex)>, x: (usize, NodeIndex)) -> Seq<
    (usize, NodeIndex),
>
    decreases s.len(),
{
    if s.len() == 0 {
        seq![x]
    } else if s.last().0 <= x.0 {
        s.push(x)
    } else {
        insert_by_slot(s.drop_last(), x).push(s.last())
    }
}

/// `s` ordered by slot, pairs with equal slots keeping their order.
pub open spec fn sort_by_slot(s: Seq<(usize, NodeIndex)>) -> Seq<(usize, NodeIndex)>
    decreases s.len(),
{
    if s.len() == 0 {
        s
    } else {
        insert_by_slot(sort_by_slot(s.drop_last()), s.last())
    }
}

/// The first failure among the sources of `es`: a missing node, or a node
/// that is not a store.
pub open spec fn input_error<S, A>(g: Graph<S, A>, es: Seq<Edge>) -> Option<ExecutionStepError>
    decreases es.len(),
{
    if es.len() == 0 {
        None
    } else {
        match input_error(g, es.drop_last()) {
            Some(e) => Some(e),
            None => if es.last().source >= g.nodes@.len() {
                Some(ExecutionStepError::NoWeight)
            } else if !(g.nodes@[es.last().source as int] is Store) {
                Some(ExecutionStepError::InvalidWeight)
            } else {
                None
            },
        }
    }
}

/// The incoming `DataMap` edges at `t`.
pub open spec fn input_edges<S, A>(g: Graph<S, A>, t: NodeIndex) -> Seq<Edge> {
    edges_at(g.edges@, t, true, EdgeClass::DataMap)
}

/// The outgoing `DataMap` edges at `t`.
pub open spec fn output_edges<S, A>(g: Graph<S, A>, t: NodeIndex) -> Seq<Edge> {
    edges_at(g.edges@, t, false, EdgeClass::DataMap)
}

/// The inputs that the node at `t` receives: the values of the stores on its
/// incoming `DataMap` edges, ordered by slot.
pub open spec fn input_values<S, A>(g: Graph<S, A>, t: NodeIndex) -> Seq<ValueModel> {
    sort_by_slot(input_pairs(input_edges(g, t))).map_values(
        |p: (usize, NodeIndex)| g.store_value(p.1 as int)->Some_0@,
    )
}

/// What resolving the inputs of the node at `t` gives: the ordered input
/// values, or the first structural error.
pub open spec fn resolution<S, A>(g: Graph<S, A>, t: NodeIndex) -> Result<
    Seq<ValueModel>,
    ExecutionStepError,
> {
    match input_error(g, input_edges(g, t)) {
        Some(e) => Err(e),
        None => if t >= g.nodes@.len() {
            Err(ExecutionStepError::NoWeight)
        } else if g.nodes@[t as int] is Store {
            Err(ExecutionStepError::InvalidWeight)
        } else {
            Ok(input_values(g, t))
        },
    }
}

/// Whether the slots of the `DataMap` edges `es` are exactly 0 up to their
/// number, each once.
pub open spec fn slots_contiguous(es: Seq<Edge>) -> bool {
    &&& forall|k: int| 0 <= k < es.len() ==> slot_of((#[trigger] es[k]).weight) < es.len()
    &&& forall|j: int, k: int|
        0 <= j < k < es.len() ==> slot_of((#[trigger] es[j]).weight) != slot_of(
            (#[trigger] es[k]).weight,
        )
}

/// The target of the first edge of `oe`, from position `from` on, that maps
/// output `slot`.
pub open spec fn slot_target(oe: Seq<Edge>, slot: usize, from: int) -> Option<NodeIndex>
    decreases oe.len() - from,
{
    if from < 0 || from >= oe.len() {
        None
    } else if oe[from].weight == GraphEdge::DataMap(slot) {
        Some(oe[from].target)
    } else {
        slot_target(oe, slot, from + 1)
    }
}

/// The nodes after the first `k` outputs were written through the output
/// edges `oe`: each output goes to the store of the first edge of its slot,
/// and an output with no such edge is dropped.
pub open spec fn written<S, A>(
    nodes: Seq<GraphNode<S, A>>,
    oe: Seq<Edge>,
    outs: Seq<Value>,
    k: nat,
) -> Seq<GraphNode<S, A>>
    decreases k,
{
    if k == 0 {
        nodes
    } else {
        let prev = written(nodes, oe, outs, (k - 1) as nat);
        match slot_target(oe, (k - 1) as usize, 0) {
            Some(j) => prev.update(j as int, GraphNode::Store(outs[k - 1])),
            None => prev,
        }
    }
}

/// The nodes of `g` after all of `outs` were written from the node at `t`.
pub open spec fn after_outputs<S, A>(g: Graph<S, A>, t: NodeIndex, outs: Seq<Value>) -> Seq<
    GraphNode<S, A>,
> {
    written(g.nodes@, output_edges(g, t), outs, outs.len())
}

/// The indices of the steps that follow the node at `t`: the targets of its
/// outgoing `ExecutionFlow` edges, in order.
pub open spec fn successors<S, A>(g: Graph<S, A>, t: NodeIndex) -> Seq<NodeIndex> {
    targets(edges_at(g.edges@, t, false, EdgeClass::ExecutionFlow))
}

/// The node indices of a sequence of steps.
pub open spec fn step_indices(steps: Seq<ExecutionStep>) -> Seq<NodeIndex> {
    steps.map_values(|s: ExecutionStep| s.0)
}

/// Whether `r` and `nodes` are what completing the step at `t` of `g` with
/// the node's result `res` gives.
pub open spec fn completes<S, A>(
    g: Graph<S, A>,
    t: NodeIndex,
    res: Result<Vec<Value>, NodeError>,
    nodes: Seq<GraphNode<S, A>>,
    r: Result<Vec<ExecutionStep>, ExecutionStepError>,
) -> bool {
    match res {
        Ok(outs) => {
            &&& nodes == after_outputs(g, t, outs@)
            &&& r is Ok
            &&& step_indices(r->Ok_0@) == successors(g, t)
        },
        Err(e) => {
            &&& nodes == g.nodes@
            &&& r == Err::<Vec<ExecutionStep>, ExecutionStepError>(
                ExecutionStepError::NodeError(e),
            )
        },
    }
}

/// Inserting at position `j`, past every pair of a smaller or equal slot and
/// before every pair of a greater one, is what `insert_by_slot` does.
proof fn lemma_insert_at(s: Seq<(usize, NodeIndex)>, x: (usize, NodeIndex), j: int)
    requires
        0 <= j <= s.len(),
        forall|k: int| j <= k < s.len() ==> (#[trigger] s[k]).0 > x.0,
        j > 0 ==> s[j - 1].0 <= x.0,
    ensures
        insert_by_slot(s, x) == s.insert(j, x),
    decreases s.len(),
{
    if s.len() == 0 {
        assert(s.insert(j, x) =~= seq![x]);
    } else if j == s.len() {
        assert(s.insert(j, x) =~= s.push(x));
    } else {
        assert(s.last().0 > x.0);
        lemma_insert_at(s.drop_last(), x, j);
        assert(s.drop_last().insert(j, x).push(s.last()) =~= s.insert(j, x));
    }
}

/// The first failure among the sources of a prefix is the first failure of
/// the whole sequence.
proof fn lemma_input_error_prefix<S, A>(g: Graph<S, A>, es: Seq<Edge>, i: int)
    requires
        0 <= i <= es.len(),
        input_error(g, es.subrange(0, i)) is Some,
    ensures
        input_error(g, es) == input_error(g, es.subrange(0, i)),
    decreases es.len(),
{
    if i == es.len() {
        assert(es.subrange(0, i) =~= es);
    } else {
        assert(es.drop_last().subrange(0, i) =~= es.subrange(0, i));
        lemma_input_error_prefix(g, es.drop_last(), i);
    }
}

/// The position in `oe` of the first edge that maps output `slot`.
fn find_slot(oe: &Vec<Edge>, slot: usize) -> (r: Option<usize>)
    ensures
        match r {
            Some(k) => k < oe@.len() && slot_target(oe@, slot, 0) == Some(oe@[k as int].target),
            None => slot_target(oe@, slot, 0) is None,
        },
{
    let mut k: usize = 0;
    while k < oe.len()
        invariant
            k <= oe@.len(),
            slot_target(oe@, slot, 0) == slot_target(oe@, slot, k as int),
        decreases oe@.len() - k,
    {
        if oe[k].weight == GraphEdge::DataMap(slot) {
            return Some(k);
        }
        k = k + 1;
    }
    None
}

/// Inputs arrive ordered by slot: a computation whose incoming `DataMap`
/// edges are slot 0 from store `a` and slot 1 from store `b`, added in either
/// order, receives the value of `a` then the value of `b`.
pub proof fn lemma_inputs_follow_slots<S, A>(g: Graph<S, A>, t: NodeIndex, a: NodeIndex, b: NodeIndex)
    requires
        g.is_computation(t as int),
        g.store_value(a as int) is Some,
        g.store_value(b as int) is Some,
        input_edges(g, t) == seq![
            Edge { source: a, target: t, weight: GraphEdge::DataMap(0) },
            Edge { source: b, target: t, weight: GraphEdge::DataMap(1) },
        ] || input_edges(g, t) == seq![
            Edge { source: b, target: t, weight: GraphEdge::DataMap(1) },
            Edge { source: a, target: t, weight: GraphEdge::DataMap(0) },
        ],
    ensures
        resolution(g, t) == Ok::<Seq<ValueModel>, ExecutionStepError>(
            seq![g.store_value(a as int)->Some_0@, g.store_value(b as int)->Some_0@],
        ),
{
    let es = input_edges(g, t);
    let e0 = es.drop_last();
    assert(e0.drop_last() =~= Seq::<Edge>::empty());
    assert(input_error(g, e0.drop_last()) is None);
    assert(e0.last() == es[0]);
    assert(input_error(g, e0) is None);
    assert(input_error(g, es) is None);
    let ps = input_pairs(es);
    let p0 = ps.drop_last();
    assert(p0.drop_last() =~= Seq::<(usize, NodeIndex)>::empty());
    assert(sort_by_slot(p0.drop_last()) =~= Seq::<(usize, NodeIndex)>::empty());
    assert(p0.last() == ps[0]);
    assert(insert_by_slot(Seq::<(usize, NodeIndex)>::empty(), ps[0]) =~= seq![ps[0]]);
    assert(sort_by_slot(p0) =~= seq![ps[0]]);
    let sorted = sort_by_slot(ps);
    assert(sorted == insert_by_slot(seq![ps[0]], ps[1]));
    if ps[0].0 == 0 {
        assert(sorted =~= seq![(0usize, a), (1usize, b)]);
    } else {
        assert(seq![ps[0]].drop_last() =~= Seq::<(usize, NodeIndex)>::empty());
        assert(insert_by_slot(Seq::<(usize, NodeIndex)>::empty(), ps[1]) =~= seq![ps[1]]);
        assert(sorted =~= seq![(0usize, a), (1usize, b)]);
    }
    assert(input_values(g, t) =~= seq![
        g.store_value(a as int)->Some_0@,
        g.store_value(b as int)->Some_0@,
    ]);
}

/// An output with no outgoing `DataMap` edge of its slot is dropped: whatever
/// value stands at that position, the graph after writing is the same.
pub proof fn lemma_unmapped_output_dropped<S, A>(
    g: Graph<S, A>,
    t: NodeIndex,
    outs: Seq<Value>,
    i: int,
    v: Value,
)
    requires
        0 <= i < outs.len(),
        slot_target(output_edges(g, t), i as usize, 0) is None,
    ensures
        after_outputs(g, t, outs.update(i, v)) == after_outputs(g, t, outs),
{
    lemma_written_ignores(g.nodes@, output_edges(g, t), outs, i, v, outs.len());
}

proof fn lemma_written_ignores<S, A>(
    nodes: Seq<GraphNode<S, A>>,
    oe: Seq<Edge>,
    outs: Seq<Value>,
    i: int,
    v: Value,
    k: nat,
)
    requires
        0 <= i < outs.len(),
        k <= outs.len(),
        slot_target(oe, i as usize, 0) is None,
    ensures
        written(nodes, oe, outs.update(i, v), k) == written(nodes, oe, outs, k),
    decreases k,
{
    if k > 0 {
        lemma_written_ignores(nodes, oe, outs, i, v, (k - 1) as nat);
    }
}

/// The target that `slot_target` finds is the target of one of the edges.
proof fn lemma_slot_target_member(oe: Seq<Edge>, slot: usize, from: int)
    ensures
        slot_target(oe, slot, from) matches Some(j) ==> exists|k: int|
            0 <= k < oe.len() && (#[trigger] oe[k]).target == j,
    decreases oe.len() - from,
{
    if 0 <= from < oe.len() && oe[from].weight != GraphEdge::DataMap(slot) {
        lemma_slot_target_member(oe, slot, from + 1);
    }
}

/// Writing outputs changes only the nodes that an outgoing `DataMap` edge of
/// the node maps an output to: every other store keeps its value.
pub proof fn lemma_outputs_touch_mapped_stores<S, A>(g: Graph<S, A>, t: NodeIndex, outs: Seq<Value>)
    requires
        g.wf(),
    ensures
        after_outputs(g, t, outs).len() == g.nodes@.len(),
        forall|j: int|
            0 <= j < g.nodes@.len() && #[trigger] after_outputs(g, t, outs)[j] != g.nodes@[j]
                ==> exists|k: usize|
                k < outs.len() && #[trigger] slot_target(output_edges(g, t), k, 0) == Some(
                    j as NodeIndex,
                ),
{
    lemma_edges_at_members(g.edges@, t, false, EdgeClass::DataMap);
    lemma_written_frame(g, output_edges(g, t), outs, outs.len());
}

proof fn lemma_written_frame<S, A>(g: Graph<S, A>, oe: Seq<Edge>, outs: Seq<Value>, n: nat)
    requires
        g.wf(),
        n <= outs.len(),
        forall|k: int| 0 <= k < oe.len() ==> g.edges@.contains(#[trigger] oe[k]),
    ensures
        written(g.nodes@, oe, outs, n).len() == g.nodes@.len(),
        forall|j: int|
            0 <= j < g.nodes@.len() && #[trigger] written(g.nodes@, oe, outs, n)[j] != g.nodes@[j]
                ==> exists|k: usize|
                k < n && #[trigger] slot_target(oe, k, 0) == Some(j as NodeIndex),
    decreases n,
{
    if n > 0 {
        let m = (n - 1) as nat;
        lemma_written_frame(g, oe, outs, m);
        lemma_slot_target_member(oe, m as usize, 0);
        if let Some(j) = slot_target(oe, m as usize, 0) {
            let k = choose|k: int| 0 <= k < oe.len() && (#[trigger] oe[k]).target == j;
            assert(g.edges@.contains(oe[k]));
        }
        assert forall|j: int|
            0 <= j < g.nodes@.len() && #[trigger] written(g.nodes@, oe, outs, n)[j]
                != g.nodes@[j] implies exists|k: usize|
            k < n && #[trigger] slot_target(oe, k, 0) == Some(j as NodeIndex) by {
            if written(g.nodes@, oe, outs, m)[j] != g.nodes@[j] {
                let k = choose|k: usize|
                    k < m && #[trigger] slot_target(oe, k, 0) == Some(j as NodeIndex);
                assert(k < n);
            } else {
                assert(slot_target(oe, m as usize, 0) == Some(j as NodeIndex));
            }
        }
    }
}

/// A node with no outgoing `ExecutionFlow` edge has no successor steps.
pub proof fn lemma_no_flow_no_successors<S, A>(g: Graph<S, A>, t: NodeIndex)
    requires
        forall|k: int|
            0 <= k < g.edges@.len() ==> !((#[trigger] g.edges@[k]).source == t
                && g.edges@[k].weight is ExecutionFlow),
    ensures
        successors(g, t) == Seq::<NodeIndex>::empty(),
{
    lemma_edges_at_members(g.edges@, t, false, EdgeClass::ExecutionFlow);
    let es = edges_at(g.edges@, t, false, EdgeClass::ExecutionFlow);
    if es.len() > 0 {
        let e = es[0];
        assert(g.edges@.contains(e));
    }
    assert(successors(g, t) =~= Seq::<NodeIndex>::empty());
}

/// Fan-out: a node gets one successor step per outgoing `ExecutionFlow` edge,
/// to that edge's target, in order; two such edges to `b` and `c` give
/// exactly the steps `b` and `c`.
pub proof fn lemma_fan_out<S, A>(g: Graph<S, A>, t: NodeIndex, b: NodeIndex, c: NodeIndex)
    requires
        edges_at(g.edges@, t, false, EdgeClass::ExecutionFlow) == seq![
            Edge { source: t, target: b, weight: GraphEdge::ExecutionFlow },
            Edge { source: t, target: c, weight: GraphEdge::ExecutionFlow },
        ],
    ensures
        successors(g, t) == seq![b, c],
        successors(g, t).len() == 2,
{
    assert(successors(g, t) =~= seq![b, c]);
}

impl ExecutionStep {
    pub fn new(idx: NodeIndex) -> (r: Self)
        ensures
            r.0 == idx,
    {
        ExecutionStep(idx)
    }

    /// Resolves the inputs of this step's node: the values of the stores on
    /// its incoming `DataMap` edges, ordered by slot. Fails on a missing or
    /// non-store source, then on a target that is missing or is a store.
    pub fn resolve_inputs<S, A>(&self, graph: &Graph<S, A>) -> (r: Result<
        Vec<Value>,
        ExecutionStepError,
    >)
        requires
            graph.wf(),
        ensures
            match resolution(*graph, self.0) {
                Ok(vals) => r is Ok && Value::seq_view(r->Ok_0@) == vals,
                Err(e) => r == Err::<Vec<Value>, ExecutionStepError>(e),
            },
    {
        let t = self.0;
        let es = graph.edges_at(t, true, EdgeClass::DataMap);
        proof {
            lemma_edges_at_members(graph.edges@, t, true, EdgeClass::DataMap);
        }
        let mut pairs: Vec<(usize, NodeIndex)> = Vec::new();
        let mut i: usize = 0;
        while i < es.len()
            invariant
                graph.wf(),
                t == self.0,
                es@ == input_edges(*graph, t),
                i <= es@.len(),
                input_error(*graph, es@.subrange(0, i as int)) is None,
                pairs@ == sort_by_slot(input_pairs(es@.subrange(0, i as int))),
                forall|k: int|
                    0 <= k < pairs@.len() ==> (#[trigger] graph.store_value(pairs@[k].1 as int))
                        is Some,
                forall|k: int|
                    0 <= k < es@.len() ==> (#[trigger] es@[k]).weight is DataMap
                        && graph.edges@.contains(es@[k]),
            decreases es@.len() - i,
        {
            let e = es[i];
            proof {
                assert(es@.subrange(0, i + 1).drop_last() =~= es@.subrange(0, i as int));
                assert(es@.subrange(0, i + 1).last() == e);
                assert(input_pairs(es@.subrange(0, i + 1)).drop_last() =~= input_pairs(
                    es@.subrange(0, i as int),
                ));
            }
            if e.source >= graph.nodes.len() {
                proof {
                    lemma_input_error_prefix(*graph, es@, i + 1);
                }
                return Err(ExecutionStepError::NoWeight);
            }
            let is_store = match &graph.nodes[e.source] {
                GraphNode::Store(_) => true,
                _ => false,
            };
            if !is_store {
                proof {
                    assert(input_error(*graph, es@.subrange(0, i + 1)) == Some(
                        ExecutionStepError::InvalidWeight,
                    ));
                    lemma_input_error_prefix(*graph, es@, i + 1);
                }
                return Err(ExecutionStepError::InvalidWeight);
            }
            let slot = match e.weight {
                GraphEdge::DataMap(slot) => slot,
                _ => 0,
            };
            let x = (slot, e.source);
            let mut j: usize = pairs.len();
            while j > 0 && pairs[j - 1].0 > slot
                invariant
                    j <= pairs@.len(),
                    x.0 == slot,
                    forall|k: int| j <= k < pairs@.len() ==> (#[trigger] pairs@[k]).0 > x.0,
                decreases j,
            {
                j = j - 1;
            }
            let ghost before = pairs@;
            proof {
                assert(graph.store_value(x.1 as int) is Some);
                assert(forall|k: int|
                    0 <= k < before.len() ==> (#[trigger] graph.store_value(before[k].1 as int))
                        is Some);
                lemma_insert_at(pairs@, x, j as int);
                assert(input_pairs(es@.subrange(0, i + 1)).last() == x);
            }
            pairs.insert(j, x);
            proof {
                assert forall|k: int| 0 <= k < pairs@.len() implies (#[trigger] graph.store_value(
                    pairs@[k].1 as int,
                )) is Some by {
                    if k < j {
                        assert(pairs@[k] == before[k]);
                        assert(graph.store_value(before[k].1 as int) is Some);
                    } else if k > j {
                        assert(pairs@[k] == before[k - 1]);
                        assert(graph.store_value(before[k - 1].1 as int) is Some);
                    } else {
                        assert(pairs@[k] == x);
                    }
                }
            }
            i = i + 1;
        }
        proof {
            assert(es@.subrange(0, es@.len() as int) =~= es@);
        }
        if t >= graph.nodes.len() {
            return Err(ExecutionStepError::NoWeight);
        }
        match &graph.nodes[t] {
            GraphNode::Store(_) => {
                return Err(ExecutionStepError::InvalidWeight);
            },
            _ => {},
        }
        let mut vals: Vec<Value> = Vec::new();
        let mut k: usize = 0;
        while k < pairs.len()
            invariant
                k <= pairs@.len(),
                forall|m: int|
                    0 <= m < pairs@.len() ==> (#[trigger] graph.store_value(pairs@[m].1 as int))
                        is Some,
                vals@.len() == k,
                forall|m: int|
                    0 <= m < k ==> (#[trigger] vals@[m])@ == graph.store_value(
                        pairs@[m].1 as int,
                    )->Some_0@,
            decreases pairs@.len() - k,
        {
            let src = pairs[k].1;
            assert(graph.store_value(pairs@[k as int].1 as int) is Some);
            match &graph.nodes[src] {
                GraphNode::Store(v) => {
                    vals.push(v.clone());
                },
                _ => {},
            }
            k = k + 1;
        }
        proof {
            assert(Value::seq_view(vals@) =~= input_values(*graph, t));
        }
        Ok(vals)
    }

    /// Whether the input slots of this step's node are 0 up to their number,
    /// each once; the engine does not require it, and compacts any gap.
    pub fn input_slots_contiguous<S, A>(&self, graph: &Graph<S, A>) -> (r: bool)
        ensures
            r == slots_contiguous(input_edges(*graph, self.0)),
    {
        let es = graph.edges_at(self.0, true, EdgeClass::DataMap);
        let n = es.len();
        let mut k: usize = 0;
        while k < n
            invariant
                n == es@.len(),
                es@ == input_edges(*graph, self.0),
                k <= n,
                forall|m: int| 0 <= m < k ==> slot_of((#[trigger] es@[m]).weight) < n,
                forall|i: int, m: int|
                    0 <= i < m < k ==> slot_of((#[trigger] es@[i]).weight) != slot_of(
                        (#[trigger] es@[m]).weight,
                    ),
            decreases n - k,
        {
            let slot = match es[k].weight {
                GraphEdge::DataMap(slot) => slot,
                _ => 0,
            };
            if slot >= n {
                return false;
            }
            let mut j: usize = 0;
            while j < k
                invariant
                    n == es@.len(),
                    es@ == input_edges(*graph, self.0),
                    j <= k < n,
                    slot == slot_of(es@[k as int].weight),
                    forall|i: int| 0 <= i < j ==> slot_of((#[trigger] es@[i]).weight) != slot,
                decreases k - j,
            {
                let other = match es[j].weight {
                    GraphEdge::DataMap(s) => s,
                    _ => 0,
                };
                if other == slot {
                    assert(slot_of(es@[j as int].weight) == slot_of(es@[k as int].weight));
                    assert(!slots_contiguous(es@));
                    return false;
                }
                j = j + 1;
            }
            k = k + 1;
        }
        true
    }

    /// Writes `outputs` from this step's node: output `i` overwrites the
    /// store at the target of the first outgoing `DataMap` edge of slot `i`,
    /// and is dropped where there is none.
    pub fn write_outputs<S, A>(&self, graph: &mut Graph<S, A>, outputs: Vec<Value>)
        requires
            old(graph).wf(),
        ensures
            final(graph).nodes@ == after_outputs(*old(graph), self.0, outputs@),
            final(graph).edges@ == old(graph).edges@,
            final(graph).wf(),
    {
        let t = self.0;
        let oe = graph.edges_at(t, false, EdgeClass::DataMap);
        proof {
            lemma_edges_at_members(graph.edges@, t, false, EdgeClass::DataMap);
        }
        let ghost g0 = *graph;
        let mut outs = outputs;
        let n = outs.len();
        let mut i: usize = 0;
        while i < n
            invariant
                g0.wf(),
                oe@ == output_edges(g0, t),
                forall|k: int| 0 <= k < oe@.len() ==> g0.edges@.contains(#[trigger] oe@[k]),
                n == outputs@.len(),
                i <= n,
                outs@ == outputs@.subrange(i as int, n as int),
                graph.edges@ == g0.edges@,
                graph.nodes@ == written(g0.nodes@, oe@, outputs@, i as nat),
                graph.nodes@.len() == g0.nodes@.len(),
            decreases n - i,
        {
            let value = outs.remove(0);
            assert(value == outputs@[i as int]);
            match find_slot(&oe, i) {
                Some(k) => {
                    let j = oe[k].target;
                    assert(g0.edges@.contains(oe@[k as int]));
                    graph.nodes.set(j, GraphNode::Store(value));
                },
                None => {},
            }
            i = i + 1;
            assert(outs@ =~= outputs@.subrange(i as int, n as int));
        }
    }

    /// The steps that follow this one: one per outgoing `ExecutionFlow` edge of
    /// its node, in order.
    pub fn next_steps<S, A>(&self, graph: &Graph<S, A>) -> (r: Vec<ExecutionStep>)
        ensures
            step_indices(r@) == successors(*graph, self.0),
    {
        let ts = graph.targets_from(self.0, EdgeClass::ExecutionFlow);
        let mut r: Vec<ExecutionStep> = Vec::new();
        let mut i: usize = 0;
        while i < ts.len()
            invariant
                i <= ts@.len(),
                r@.len() == i,
                forall|k: int| 0 <= k < i ==> (#[trigger] r@[k]).0 == ts@[k],
            decreases ts@.len() - i,
        {
            r.push(ExecutionStep(ts[i]));
            i = i + 1;
        }
        assert(step_indices(r@) =~= ts@);
        r
    }

    /// Finishes this step with its node's result: on success the outputs are
    /// written and the following steps returned; a failure of the node is
    /// returned with nothing written.
    pub fn complete<S, A>(
        &self,
        graph: &mut Graph<S, A>,
        result: Result<Vec<Value>, NodeError>,
    ) -> (r: Result<Vec<ExecutionStep>, ExecutionStepError>)
        requires
            old(graph).wf(),
        ensures
            completes(*old(graph), self.0, result, final(graph).nodes@, r),
            final(graph).edges@ == old(graph).edges@,
            final(graph).wf(),
    {
        match result {
            Ok(outputs) => {
                self.write_outputs(graph, outputs);
                Ok(self.next_steps(graph))
            },
            Err(e) => Err(ExecutionStepError::NodeError(e)),
        }
    }

    /// Runs this step on a graph whose node at this index is synchronous:
    /// resolves its inputs, runs it, writes its outputs and returns the
    /// following steps. An asynchronous node cannot be run here and gives
    /// `InvalidWeight`; it is run through `resolve_inputs` and `complete`.
    pub fn execute<S: SyncNode, A>(&self, graph: &mut Graph<S, A>) -> (r: Result<
        Vec<ExecutionStep>,
        ExecutionStepError,
    >)
        requires
            old(graph).wf(),
        ensures
            final(graph).edges@ == old(graph).edges@,
            final(graph).wf(),
            match resolution(*old(graph), self.0) {
                Err(e) => r == Err::<Vec<ExecutionStep>, ExecutionStepError>(e)
                    && final(graph).nodes@ == old(graph).nodes@,
                Ok(_) => if old(graph).nodes@[self.0 as int] is AsyncNode {
                    r == Err::<Vec<ExecutionStep>, ExecutionStepError>(
                        ExecutionStepError::InvalidWeight,
                    ) && final(graph).nodes@ == old(graph).nodes@
                } else {
                    exists|res: Result<Vec<Value>, NodeError>|
                        completes(*old(graph), self.0, res, final(graph).nodes@, r)
                },
            },
    {
        let inputs = match self.resolve_inputs(graph) {
            Ok(inputs) => inputs,
            Err(e) => {
                return Err(e);
            },
        };
        let res = match &graph.nodes[self.0] {
            GraphNode::SyncNode(node) => node.run(inputs),
            _ => {
                return Err(ExecutionStepError::InvalidWeight);
            },
        };
        let r = self.complete(graph, res);
        assert(completes(*old(graph), self.0, res, graph.nodes@, r));
        r
    }
}

} // verus!
