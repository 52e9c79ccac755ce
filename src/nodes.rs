use vstd::prelude::*;

use crate::graph::{
    edges_at, sources, targets, without_data_flow_into, Edge, EdgeClass, Graph, GraphEdge,
    GraphNode, NodeIndex,
};
use crate::value::Value;

verus! {

/// Failure of one node invocation.
#[derive(Debug)]
pub enum NodeError {
    /// No input at this slot.
    MissingInput(usize),
    /// An input of the wrong type.
    ConversionError(Value),
    /// Failure inside the node, described in words.
    InternalError(String),
}

/// The synchronous capability of a computation node: ordered inputs in,
/// ordered outputs out, without suspending the caller.
pub trait SyncNode {
    fn run(&self, inputs: Vec<Value>) -> Result<Vec<Value>, NodeError>;
}

/// No store is attached where one was looked for.
#[derive(Debug, Clone, Copy, PartialEq, Eq, Structural)]
pub enum GetStoreError {
    NoStore,
}

/// Stores data, for transfer between nodes.
#[derive(Debug, Clone, Copy, PartialEq, Eq, Structural)]
pub struct Store(pub NodeIndex);

/// The node indices of a sequence of stores.
pub open spec fn store_indices(stores: Seq<Store>) -> Seq<NodeIndex> {
    stores.map_values(|s: Store| s.0)
}

/// Stores at the given node indices, in order.
fn stores_of(indices: Vec<NodeIndex>) -> (r: Vec<Store>)
    ensures
        store_indices(r@) == indices@,
{
    let mut r: Vec<Store> = Vec::new();
    let mut i: usize = 0;
    while i < indices.len()
        invariant
            i <= indices@.len(),
            r@.len() == i,
            forall|k: int| 0 <= k < i ==> (#[trigger] r@[k]).0 == indices@[k],
        decreases indices@.len() - i,
    {
        r.push(Store(indices[i]));
        i = i + 1;
    }
    assert(store_indices(r@) =~= indices@);
    r
}

/// Whether `r` is the first of the stores at `indices`, or `NoStore` when there
/// is none.
pub open spec fn first_of(indices: Seq<NodeIndex>, r: Result<Store, GetStoreError>) -> bool {
    if indices.len() > 0 {
        r == Ok::<Store, GetStoreError>(Store(indices[0]))
    } else {
        r == Err::<Store, GetStoreError>(GetStoreError::NoStore)
    }
}

/// The first of `stores`, or `NoStore` when there is none.
pub(crate) fn first_store(stores: Vec<Store>) -> (r: Result<Store, GetStoreError>)
    ensures
        stores@.len() > 0 ==> r == Ok::<Store, GetStoreError>(stores@[0]),
        stores@.len() == 0 ==> r == Err::<Store, GetStoreError>(GetStoreError::NoStore),
{
    if stores.len() > 0 {
        Ok(stores[0])
    } else {
        Err(GetStoreError::NoStore)
    }
}

impl Store {
    /// The stores that feed this one through `DataFlow` edges.
    pub fn inputs<S, A>(self, graph: &Graph<S, A>) -> (r: Vec<Store>)
        ensures
            store_indices(r@) == sources(edges_at(graph.edges@, self.0, true, EdgeClass::DataFlow)),
    {
        stores_of(graph.sources_into(self.0, EdgeClass::DataFlow))
    }

    /// The stores that this one feeds through `DataFlow` edges.
    pub fn outputs<S, A>(self, graph: &Graph<S, A>) -> (r: Vec<Store>)
        ensures
            store_indices(r@) == targets(
                edges_at(graph.edges@, self.0, false, EdgeClass::DataFlow),
            ),
    {
        stores_of(graph.targets_from(self.0, EdgeClass::DataFlow))
    }

    /// Sets the input of the store, removing any existing inputs.
    pub fn set_input<S, A>(&self, graph: &mut Graph<S, A>, store: Option<Store>)
        requires
            self.0 < old(graph).nodes@.len(),
            store matches Some(s) ==> s.0 < old(graph).nodes@.len(),
        ensures
            final(graph).nodes@ == old(graph).nodes@,
            store is None ==> final(graph).edges@ == without_data_flow_into(
                old(graph).edges@,
                self.0,
            ),
            store matches Some(s) ==> final(graph).edges@ == without_data_flow_into(
                old(graph).edges@,
                self.0,
            ).push(Edge { source: s.0, target: self.0, weight: GraphEdge::DataFlow }),
            old(graph).wf() ==> final(graph).wf(),
    {
        graph.remove_data_flow_into(self.0);
        if let Some(store) = store {
            graph.add_edge(store.0, self.0, GraphEdge::DataFlow);
        }
    }

    /// Adds an output edge to the given store.
    pub fn add_output<S, A>(&self, graph: &mut Graph<S, A>, store: Store)
        requires
            self.0 < old(graph).nodes@.len(),
            store.0 < old(graph).nodes@.len(),
        ensures
            final(graph).nodes@ == old(graph).nodes@,
            final(graph).edges@ == old(graph).edges@.push(
                Edge { source: self.0, target: store.0, weight: GraphEdge::DataFlow },
            ),
            old(graph).wf() ==> final(graph).wf(),
    {
        graph.add_edge(self.0, store.0, GraphEdge::DataFlow);
    }

    /// Sets the value of the store.
    pub fn set_value<S, A>(&self, graph: &mut Graph<S, A>, value: Value)
        requires
            self.0 < old(graph).nodes@.len(),
        ensures
            final(graph).nodes@ == old(graph).nodes@.update(self.0 as int, GraphNode::Store(value)),
            final(graph).edges@ == old(graph).edges@,
            old(graph).wf() ==> final(graph).wf(),
    {
        graph.nodes.set(self.0, GraphNode::Store(value));
    }
}

/// A handle on a computation node, with queries on its stores and its
/// execution edges.
pub trait Node: Sized {
    /// The index of the node.
    spec fn node_index(&self) -> NodeIndex;

    fn index(&self) -> (r: NodeIndex)
        ensures
            r == self.node_index(),
    ;

    /// The indices of the stores that feed the node through `DataMap` edges.
    open spec fn input_stores_spec<S, A>(&self, graph: &Graph<S, A>) -> Seq<NodeIndex> {
        sources(edges_at(graph.edges@, self.node_index(), true, EdgeClass::DataMap))
    }

    /// The indices of the stores that the node fills through `DataMap` edges.
    open spec fn output_stores_spec<S, A>(&self, graph: &Graph<S, A>) -> Seq<NodeIndex> {
        targets(edges_at(graph.edges@, self.node_index(), false, EdgeClass::DataMap))
    }

    /// The stores that feed the node through `DataMap` edges.
    fn input_stores<S, A>(&self, graph: &Graph<S, A>) -> (r: Vec<Store>)
        ensures
            store_indices(r@) == sources(
                edges_at(graph.edges@, self.node_index(), true, EdgeClass::DataMap),
            ),
    {
        stores_of(graph.sources_into(self.index(), EdgeClass::DataMap))
    }

    /// The stores that the node fills through `DataMap` edges.
    fn output_stores<S, A>(&self, graph: &Graph<S, A>) -> (r: Vec<Store>)
        ensures
            store_indices(r@) == targets(
                edges_at(graph.edges@, self.node_index(), false, EdgeClass::DataMap),
            ),
    {
        stores_of(graph.targets_from(self.index(), EdgeClass::DataMap))
    }

    /// The nodes that run before this one.
    fn input_execution<S, A>(&self, graph: &Graph<S, A>) -> (r: Vec<NodeIndex>)
        ensures
            r@ == sources(
                edges_at(graph.edges@, self.node_index(), true, EdgeClass::ExecutionFlow),
            ),
    {
        graph.sources_into(self.index(), EdgeClass::ExecutionFlow)
    }

    /// The nodes that run after this one.
    fn output_execution<S, A>(&self, graph: &Graph<S, A>) -> (r: Vec<NodeIndex>)
        ensures
            r@ == targets(
                edges_at(graph.edges@, self.node_index(), false, EdgeClass::ExecutionFlow),
            ),
    {
        graph.targets_from(self.index(), EdgeClass::ExecutionFlow)
    }

    /// Adds an execution flow from the given node to this node.
    fn run_after<S, A>(&self, graph: &mut Graph<S, A>, node: NodeIndex)
        requires
            self.node_index() < old(graph).nodes@.len(),
            node < old(graph).nodes@.len(),
        ensures
            final(graph).nodes@ == old(graph).nodes@,
            final(graph).edges@ == old(graph).edges@.push(
                Edge { source: node, target: self.node_index(), weight: GraphEdge::ExecutionFlow },
            ),
            old(graph).wf() ==> final(graph).wf(),
    {
        graph.add_edge(node, self.index(), GraphEdge::ExecutionFlow);
    }

    /// Adds an execution flow from this node to the given node.
    fn run_before<S, A>(&self, graph: &mut Graph<S, A>, node: NodeIndex)
        requires
            self.node_index() < old(graph).nodes@.len(),
            node < old(graph).nodes@.len(),
        ensures
            final(graph).nodes@ == old(graph).nodes@,
            final(graph).edges@ == old(graph).edges@.push(
                Edge { source: self.node_index(), target: node, weight: GraphEdge::ExecutionFlow },
            ),
            old(graph).wf() ==> final(graph).wf(),
    {
        graph.add_edge(self.index(), node, GraphEdge::ExecutionFlow);
    }
}

/// The first input, or an internal error when there is none.
pub fn first_input(inputs: &Vec<Value>) -> (r: Result<Value, NodeError>)
    ensures
        inputs@.len() == 0 ==> (r matches Err(NodeError::InternalError(m)) && m@ == "No input"@),
        inputs@.len() > 0 ==> (r matches Ok(v) && v@ == inputs@[0]@),
{
    if inputs.len() == 0 {
        proof {
            reveal_strlit("No input");
        }
        Err(NodeError::InternalError("No input".to_owned()))
    } else {
        Ok(inputs[0].clone())
    }
}

/// The first input as a string: an internal error when there is no input, a
/// conversion error carrying the input when it is not a string.
pub fn string_input(inputs: &Vec<Value>) -> (r: Result<String, NodeError>)
    ensures
        inputs@.len() == 0 ==> (r matches Err(NodeError::InternalError(m)) && m@ == "No input"@),
        inputs@.len() > 0 ==> match inputs@[0] {
            Value::String(s) => (r matches Ok(t) && t@ == s@),
            _ => (r matches Err(NodeError::ConversionError(v)) && v@ == inputs@[0]@),
        },
{
    match first_input(inputs) {
        Ok(Value::String(s)) => Ok(s),
        Ok(v) => Err(NodeError::ConversionError(v)),
        Err(e) => Err(e),
    }
}

/// Whether the store at `i` of `g` holds an empty string.
pub open spec fn holds_empty_string<S, A>(g: Graph<S, A>, i: int) -> bool {
    g.store_value(i) matches Some(Value::String(s)) && s@ == Seq::<char>::empty()
}

/// Whether `g` is `before` with the computation `node` added at index `i`, an
/// input store mapped to its slot 0 and, when `output` holds, an output store
/// mapped from its slot 0; each new store holds an empty string.
pub open spec fn added_with_stores<S, A>(
    before: Graph<S, A>,
    g: Graph<S, A>,
    node: GraphNode<S, A>,
    i: NodeIndex,
    output: bool,
) -> bool {
    &&& i == before.nodes@.len()
    &&& g.nodes@.len() == i + if output {
        3int
    } else {
        2int
    }
    &&& g.nodes@.subrange(0, i as int) == before.nodes@
    &&& g.nodes@[i as int] == node
    &&& holds_empty_string(g, i + 1)
    &&& output ==> holds_empty_string(g, i + 2)
    &&& g.edges@ == if output {
        before.edges@.push(
            Edge { source: (i + 1) as NodeIndex, target: i, weight: GraphEdge::DataMap(0) },
        ).push(Edge { source: i, target: (i + 2) as NodeIndex, weight: GraphEdge::DataMap(0) })
    } else {
        before.edges@.push(
            Edge { source: (i + 1) as NodeIndex, target: i, weight: GraphEdge::DataMap(0) },
        )
    }
}

/// Adds the computation `node` with an input store at slot 0 and, when
/// `output` holds, an output store at slot 0, both holding an empty string.
/// Returns the index of the computation.
pub fn add_with_stores<S, A>(graph: &mut Graph<S, A>, node: GraphNode<S, A>, output: bool) -> (r:
    NodeIndex)
    requires
        old(graph).nodes@.len() + 3 <= usize::MAX,
    ensures
        added_with_stores(*old(graph), *final(graph), node, r, output),
        old(graph).wf() ==> final(graph).wf(),
{
    let ghost n0 = graph.nodes@;
    let index = graph.add_node(node);
    let input = graph.add_node(GraphNode::Store(Value::String(String::new())));
    graph.add_edge(input, index, GraphEdge::DataMap(0));
    if output {
        let out = graph.add_node(GraphNode::Store(Value::String(String::new())));
        graph.add_edge(index, out, GraphEdge::DataMap(0));
    }
    assert(graph.nodes@.subrange(0, index as int) =~= n0);
    index
}

} // verus!
