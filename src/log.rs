use vstd::prelude::*;

use crate::graph::{Graph, GraphNode, NodeIndex};
use crate::nodes::{
    add_with_stores, added_with_stores, first_of, first_store, GetStoreError, Node, Store,
};

verus! {

/// Logs a provided message.
#[derive(Debug, Clone, Copy, PartialEq, Eq, Structural)]
pub struct LogNode(pub NodeIndex);

impl Node for LogNode {
    open spec fn node_index(&self) -> NodeIndex {
        self.0
    }

    fn index(&self) -> (r: NodeIndex) {
        self.0
    }
}

impl LogNode {
    /// Adds the logging node, with a message store at slot 0 holding an empty
    /// string.
    pub fn new<S, A>(graph: &mut Graph<S, A>, weight: S) -> (r: Self)
        requires
            old(graph).nodes@.len() + 3 <= usize::MAX,
        ensures
            added_with_stores(*old(graph), *final(graph), GraphNode::SyncNode(weight), r.0, false),
            old(graph).wf() ==> final(graph).wf(),
    {
        Self(add_with_stores(graph, GraphNode::SyncNode(weight), false))
    }

    /// The store holding the message.
    pub fn message<S, A>(&self, graph: &Graph<S, A>) -> (r: Result<Store, GetStoreError>)
        ensures
            first_of(self.input_stores_spec(graph), r),
    {
        let stores = self.input_stores(graph);
        first_store(stores)
    }
}

} // verus!
