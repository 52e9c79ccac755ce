use vstd::prelude::*;

use crate::graph::{Edge, Graph, GraphNode, NodeIndex};

verus! {

/// The kind of a node.
#[derive(Debug, Clone, Copy, PartialEq, Eq, Structural)]
pub enum NodeKind {
    AsyncNode,
    SyncNode,
    Store,
}

impl<S, A> Graph<S, A> {
    /// Whether node `i` exists and is of kind `kind`.
    pub open spec fn is_kind(&self, i: NodeIndex, kind: NodeKind) -> bool {
        i < self.nodes@.len() && match self.nodes@[i as int] {
            GraphNode::AsyncNode(_) => kind == NodeKind::AsyncNode,
            GraphNode::SyncNode(_) => kind == NodeKind::SyncNode,
            GraphNode::Store(_) => kind == NodeKind::Store,
        }
    }

    fn has_kind(&self, i: NodeIndex, kind: NodeKind) -> (r: bool)
        ensures
            r == self.is_kind(i, kind),
    {
        if i >= self.nodes.len() {
            return false;
        }
        match &self.nodes[i] {
            GraphNode::AsyncNode(_) => kind == NodeKind::AsyncNode,
            GraphNode::SyncNode(_) => kind == NodeKind::SyncNode,
            GraphNode::Store(_) => kind == NodeKind::Store,
        }
    }
}

/// The nodes of kind `kind` at the other end of the edges of `es` that enter
/// (`incoming`) or leave `index`, one per edge, in order.
pub open spec fn neighbors_of_kind<S, A>(
    g: Graph<S, A>,
    es: Seq<Edge>,
    index: NodeIndex,
    incoming: bool,
    kind: NodeKind,
) -> Seq<NodeIndex>
    decreases es.len(),
{
    if es.len() == 0 {
        Seq::empty()
    } else {
        let rest = neighbors_of_kind(g, es.drop_last(), index, incoming, kind);
        let e = es.last();
        let (here, other) = if incoming {
            (e.target, e.source)
        } else {
            (e.source, e.target)
        };
        if here == index && g.is_kind(other, kind) {
            rest.push(other)
        } else {
            rest
        }
    }
}

/// The nodes of kind `kind` next to `index` along its incoming or outgoing
/// edges of any kind.
pub fn neighbors<S, A>(index: NodeIndex, graph: &Graph<S, A>, incoming: bool, kind: NodeKind) -> (r:
    Vec<NodeIndex>)
    ensures
        r@ == neighbors_of_kind(*graph, graph.edges@, index, incoming, kind),
{
    let mut r: Vec<NodeIndex> = Vec::new();
    let mut i: usize = 0;
    while i < graph.edges.len()
        invariant
            i <= graph.edges@.len(),
            r@ == neighbors_of_kind(
                *graph,
                graph.edges@.subrange(0, i as int),
                index,
                incoming,
                kind,
            ),
        decreases graph.edges@.len() - i,
    {
        let e = graph.edges[i];
        proof {
            assert(graph.edges@.subrange(0, i + 1).drop_last() =~= graph.edges@.subrange(
                0,
                i as int,
            ));
        }
        let (here, other) = if incoming {
            (e.target, e.source)
        } else {
            (e.source, e.target)
        };
        if here == index && graph.has_kind(other, kind) {
            r.push(other);
        }
        i = i + 1;
    }
    assert(graph.edges@.subrange(0, graph.edges@.len() as int) =~= graph.edges@);
    r
}

/// The asynchronous nodes with an edge into `index`.
pub fn previous_nodes<S, A>(index: NodeIndex, graph: &Graph<S, A>) -> (r: Vec<NodeIndex>)
    ensures
        r@ == neighbors_of_kind(*graph, graph.edges@, index, true, NodeKind::AsyncNode),
{
    neighbors(index, graph, true, NodeKind::AsyncNode)
}

/// The asynchronous nodes with an edge from `index`.
pub fn next_nodes<S, A>(index: NodeIndex, graph: &Graph<S, A>) -> (r: Vec<NodeIndex>)
    ensures
        r@ == neighbors_of_kind(*graph, graph.edges@, index, false, NodeKind::AsyncNode),
{
    neighbors(index, graph, false, NodeKind::AsyncNode)
}

/// The stores with an edge into `index`.
pub fn input_stores<S, A>(index: NodeIndex, graph: &Graph<S, A>) -> (r: Vec<NodeIndex>)
    ensures
        r@ == neighbors_of_kind(*graph, graph.edges@, index, true, NodeKind::Store),
{
    neighbors(index, graph, true, NodeKind::Store)
}

/// The stores with an edge from `index`.
pub fn output_stores<S, A>(index: NodeIndex, graph: &Graph<S, A>) -> (r: Vec<NodeIndex>)
    ensures
        r@ == neighbors_of_kind(*graph, graph.edges@, index, false, NodeKind::Store),
{
    neighbors(index, graph, false, NodeKind::Store)
}

} // verus!
