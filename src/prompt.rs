use vstd::prelude::*;

use crate::graph::{Graph, GraphNode, NodeIndex};
use crate::nodes::{
    add_with_stores, added_with_stores, first_of, first_store, GetStoreError, Node, Store,
};

verus! {

/// Shows its input to a person and outputs their answer.
#[derive(Debug, Clone, Copy, PartialEq, Eq, Structural)]
pub struct PromptNode(pub NodeIndex);

impl Node for PromptNode {
    open spec fn node_index(&self) -> NodeIndex {
        self.0
    }

    fn index(&self) -> (r: NodeIndex) {
        self.0
    }
}

impl PromptNode {
    /// Adds the prompt node, with an input and an output store at slot 0, both
    /// holding an empty string.
    pub fn new<S, A>(graph: &mut Graph<S, A>, weight: S) -> (r: Self)
        requires
            old(graph).nodes@.len() + 3 <= usize::MAX,
        ensures
            added_with_stores(*old(graph), *final(graph), GraphNode::SyncNode(weight), r.0, true),
            old(graph).wf() ==> final(graph).wf(),
    {
        Self(add_with_stores(graph, GraphNode::SyncNode(weight), true))
    }

    /// The store holding the text shown.
    pub fn input<S, A>(&self, graph: &Graph<S, A>) -> (r: Result<Store, GetStoreError>)
        ensures
            first_of(self.input_stores_spec(graph), r),
    {
        let stores = self.input_stores(graph);
        first_store(stores)
    }

    /// The store receiving the answer.
    pub fn output<S, A>(&self, graph: &Graph<S, A>) -> (r: Result<Store, GetStoreError>)
        ensures
            first_of(self.output_stores_spec(graph), r),
    {
        let stores = self.output_stores(graph);
        first_store(stores)
    }
}

} // verus!
