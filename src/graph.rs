use vstd::prelude::*;

use crate::value::Value;

verus! {

/// Index of a node in a [`Graph`].
pub type NodeIndex = usize;

/// The kind of an edge.
#[derive(Debug, Clone, Copy, PartialEq, Eq, Structural)]
pub enum GraphEdge {
    /// Execution flow between nodes: run the target after the source.
    ExecutionFlow,
    /// Data flow between stores.
    DataFlow,
    /// Data map from node to store, or store to node; the slot of the data in
    /// the node.
    DataMap(usize),
}

/// Which kind of edge a query looks for, whatever its slot.
#[derive(Debug, Clone, Copy, PartialEq, Eq, Structural)]
pub enum EdgeClass {
    ExecutionFlow,
    DataFlow,
    DataMap,
}

impl EdgeClass {
    pub open spec fn admits(self, w: GraphEdge) -> bool {
        match self {
            EdgeClass::ExecutionFlow => w is ExecutionFlow,
            EdgeClass::DataFlow => w is DataFlow,
            EdgeClass::DataMap => w is DataMap,
        }
    }

    pub fn test(self, w: GraphEdge) -> (r: bool)
        ensures
            r == self.admits(w),
    {
        match self {
            EdgeClass::ExecutionFlow => matches!(w, GraphEdge::ExecutionFlow),
            EdgeClass::DataFlow => matches!(w, GraphEdge::DataFlow),
            EdgeClass::DataMap => matches!(w, GraphEdge::DataMap(_)),
        }
    }
}

/// A directed edge with its kind.
#[derive(Debug, Clone, Copy, PartialEq, Eq, Structural)]
pub struct Edge {
    pub source: NodeIndex,
    pub target: NodeIndex,
    pub weight: GraphEdge,
}

/// A graph vertex: a computation of either shape, or a store of one value.
///
/// `S` is the synchronous capability and `A` the asynchronous one.
pub enum GraphNode<S, A> {
    /// Executable async node.
    AsyncNode(A),
    /// Executable sync node.
    SyncNode(S),
    /// Used as an intermediary store for data between nodes.
    Store(Value),
}

/// A directed graph: nodes in an arena, addressed by their position, and edges
/// in the order in which they were added.
pub struct Graph<S, A> {
    pub nodes: Vec<GraphNode<S, A>>,
    pub edges: Vec<Edge>,
}

/// The edges of `es` at `node` (incoming or outgoing) whose kind `class`
/// admits, in order.
pub open spec fn edges_at(es: Seq<Edge>, node: NodeIndex, incoming: bool, class: EdgeClass) -> Seq<
    Edge,
>
    decreases es.len(),
{
    if es.len() == 0 {
        Seq::empty()
    } else {
        let rest = edges_at(es.drop_last(), node, incoming, class);
        let e = es.last();
        if (if incoming {
            e.target == node
        } else {
            e.source == node
        }) && class.admits(e.weight) {
            rest.push(e)
        } else {
            rest
        }
    }
}

/// Every edge of `edges_at` is an edge of `es` with the stated end and kind.
pub proof fn lemma_edges_at_members(es: Seq<Edge>, node: NodeIndex, incoming: bool, class: EdgeClass)
    ensures
        forall|k: int|
            0 <= k < edges_at(es, node, incoming, class).len() ==> {
                let e = #[trigger] edges_at(es, node, incoming, class)[k];
                &&& es.contains(e)
                &&& class.admits(e.weight)
                &&& (if incoming {
                    e.target == node
                } else {
                    e.source == node
                })
            },
    decreases es.len(),
{
    if es.len() > 0 {
        lemma_edges_at_members(es.drop_last(), node, incoming, class);
        let r = edges_at(es.drop_last(), node, incoming, class);
        assert forall|k: int| 0 <= k < r.len() implies es.contains(#[trigger] r[k]) by {
            let j = choose|j: int| 0 <= j < es.drop_last().len() && es.drop_last()[j] == r[k];
            assert(es[j] == r[k]);
        }
        assert(es[es.len() - 1] == es.last());
    }
}

/// The sources of a sequence of edges.
pub open spec fn sources(es: Seq<Edge>) -> Seq<NodeIndex> {
    es.map_values(|e: Edge| e.source)
}

/// The targets of a sequence of edges.
pub open spec fn targets(es: Seq<Edge>) -> Seq<NodeIndex> {
    es.map_values(|e: Edge| e.target)
}

/// The edges of `es` that are not incoming `DataFlow` edges at `node`, in order.
pub open spec fn without_data_flow_into(es: Seq<Edge>, node: NodeIndex) -> Seq<Edge>
    decreases es.len(),
{
    if es.len() == 0 {
        Seq::empty()
    } else {
        let rest = without_data_flow_into(es.drop_last(), node);
        let e = es.last();
        if e.target == node && e.weight is DataFlow {
            rest
        } else {
            rest.push(e)
        }
    }
}

impl<S, A> Graph<S, A> {
    /// Every edge joins two nodes of the graph.
    pub open spec fn wf(&self) -> bool {
        forall|k: int|
            0 <= k < self.edges@.len() ==> (#[trigger] self.edges@[k]).source < self.nodes@.len()
                && self.edges@[k].target < self.nodes@.len()
    }

    /// The value held by the store at `i`, if node `i` is a store.
    pub open spec fn store_value(&self, i: int) -> Option<Value> {
        if 0 <= i < self.nodes@.len() {
            match self.nodes@[i] {
                GraphNode::Store(v) => Some(v),
                _ => None,
            }
        } else {
            None
        }
    }

    /// Whether node `i` is a computation of either shape.
    pub open spec fn is_computation(&self, i: int) -> bool {
        0 <= i < self.nodes@.len() && !(self.nodes@[i] is Store)
    }

    /// Whether every edge joins two nodes of the graph.
    pub fn is_wf(&self) -> (r: bool)
        ensures
            r == self.wf(),
    {
        let n = self.nodes.len();
        let mut i: usize = 0;
        while i < self.edges.len()
            invariant
                i <= self.edges@.len(),
                n == self.nodes@.len(),
                forall|k: int|
                    0 <= k < i ==> (#[trigger] self.edges@[k]).source < n && self.edges@[k].target
                        < n,
            decreases self.edges@.len() - i,
        {
            let e = self.edges[i];
            if e.source >= n || e.target >= n {
                return false;
            }
            i = i + 1;
        }
        true
    }

    /// An empty graph.
    pub fn new() -> (r: Self)
        ensures
            r.nodes@.len() == 0,
            r.edges@.len() == 0,
            r.wf(),
    {
        Graph { nodes: Vec::new(), edges: Vec::new() }
    }

    /// Adds a node and returns its index.
    pub fn add_node(&mut self, node: GraphNode<S, A>) -> (r: NodeIndex)
        requires
            old(self).nodes@.len() < usize::MAX,
        ensures
            r == old(self).nodes@.len(),
            final(self).nodes@ == old(self).nodes@.push(node),
            final(self).edges@ == old(self).edges@,
            old(self).wf() ==> final(self).wf(),
    {
        let r = self.nodes.len();
        self.nodes.push(node);
        r
    }

    /// Adds an edge from `source` to `target`.
    pub fn add_edge(&mut self, source: NodeIndex, target: NodeIndex, weight: GraphEdge)
        requires
            source < old(self).nodes@.len(),
            target < old(self).nodes@.len(),
        ensures
            final(self).nodes@ == old(self).nodes@,
            final(self).edges@ == old(self).edges@.push(
                Edge { source, target, weight },
            ),
            old(self).wf() ==> final(self).wf(),
    {
        self.edges.push(Edge { source, target, weight });
    }

    /// The node at `index`, if there is one.
    pub fn node_weight(&self, index: NodeIndex) -> (r: Option<&GraphNode<S, A>>)
        ensures
            index < self.nodes@.len() ==> r == Some(&self.nodes@[index as int]),
            index >= self.nodes@.len() ==> r is None,
    {
        if index < self.nodes.len() {
            Some(&self.nodes[index])
        } else {
            None
        }
    }

    /// The edges at `node` whose kind `class` admits, incoming or outgoing, in
    /// the order in which they were added.
    pub fn edges_at(&self, node: NodeIndex, incoming: bool, class: EdgeClass) -> (r: Vec<Edge>)
        ensures
            r@ == edges_at(self.edges@, node, incoming, class),
    {
        let mut r: Vec<Edge> = Vec::new();
        let mut i: usize = 0;
        while i < self.edges.len()
            invariant
                i <= self.edges@.len(),
                r@ == edges_at(self.edges@.subrange(0, i as int), node, incoming, class),
            decreases self.edges@.len() - i,
        {
            let e = self.edges[i];
            proof {
                assert(self.edges@.subrange(0, i + 1).drop_last() =~= self.edges@.subrange(
                    0,
                    i as int,
                ));
            }
            let end = if incoming {
                e.target
            } else {
                e.source
            };
            if end == node && class.test(e.weight) {
                r.push(e);
            }
            i = i + 1;
        }
        assert(self.edges@.subrange(0, self.edges@.len() as int) =~= self.edges@);
        r
    }

    /// The sources of the incoming edges at `node` of kind `class`.
    pub fn sources_into(&self, node: NodeIndex, class: EdgeClass) -> (r: Vec<NodeIndex>)
        ensures
            r@ == sources(edges_at(self.edges@, node, true, class)),
    {
        let es = self.edges_at(node, true, class);
        let mut r: Vec<NodeIndex> = Vec::new();
        let mut i: usize = 0;
        while i < es.len()
            invariant
                i <= es@.len(),
                r@ =~= sources(es@.subrange(0, i as int)),
            decreases es@.len() - i,
        {
            r.push(es[i].source);
            i = i + 1;
        }
        assert(es@.subrange(0, es@.len() as int) =~= es@);
        r
    }

    /// The targets of the outgoing edges at `node` of kind `class`.
    pub fn targets_from(&self, node: NodeIndex, class: EdgeClass) -> (r: Vec<NodeIndex>)
        ensures
            r@ == targets(edges_at(self.edges@, node, false, class)),
    {
        let es = self.edges_at(node, false, class);
        let mut r: Vec<NodeIndex> = Vec::new();
        let mut i: usize = 0;
        while i < es.len()
            invariant
                i <= es@.len(),
                r@ =~= targets(es@.subrange(0, i as int)),
            decreases es@.len() - i,
        {
            r.push(es[i].target);
            i = i + 1;
        }
        assert(es@.subrange(0, es@.len() as int) =~= es@);
        r
    }

    /// Removes every incoming `DataFlow` edge at `node`, keeping the order of
    /// the other edges.
    pub fn remove_data_flow_into(&mut self, node: NodeIndex)
        ensures
            final(self).nodes@ == old(self).nodes@,
            final(self).edges@ == without_data_flow_into(old(self).edges@, node),
            old(self).wf() ==> final(self).wf(),
    {
        let mut kept: Vec<Edge> = Vec::new();
        let mut i: usize = 0;
        while i < self.edges.len()
            invariant
                i <= self.edges@.len(),
                kept@ == without_data_flow_into(self.edges@.subrange(0, i as int), node),
                forall|k: int| 0 <= k < kept@.len() ==> self.edges@.contains(#[trigger] kept@[k]),
            decreases self.edges@.len() - i,
        {
            let e = self.edges[i];
            proof {
                assert(self.edges@.subrange(0, i + 1).drop_last() =~= self.edges@.subrange(
                    0,
                    i as int,
                ));
            }
            if !(e.target == node && matches!(e.weight, GraphEdge::DataFlow)) {
                kept.push(e);
                proof {
                    assert(self.edges@[i as int] == e);
                    assert forall|k: int| 0 <= k < kept@.len() implies self.edges@.contains(
                        #[trigger] kept@[k],
                    ) by {
                        if k == kept@.len() - 1 {
                            assert(self.edges@[i as int] == kept@[k]);
                        }
                    }
                }
            }
            i = i + 1;
        }
        assert(self.edges@.subrange(0, self.edges@.len() as int) =~= self.edges@);
        let ghost before = self.edges@;
        self.edges = kept;
        proof {
            assert forall|k: int| 0 <= k < self.edges@.len() && old(self).wf() implies (
            #[trigger] self.edges@[k]).source < self.nodes@.len() && self.edges@[k].target
                < self.nodes@.len() by {
                let j = choose|j: int| 0 <= j < before.len() && before[j] == self.edges@[k];
                assert(before[j] == old(self).edges@[j]);
            }
        }
    }
}

} // verus!
