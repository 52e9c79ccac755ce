use vstd::prelude::*;

use crate::graph::NodeIndex;
use crate::nodes::Node;

verus! {

/// A node that remembers what it is given.
#[derive(Debug, Clone, Copy, PartialEq, Eq, Structural)]
pub struct MemoryNode(pub NodeIndex);

impl Node for MemoryNode {
    open spec fn node_index(&self) -> NodeIndex {
        self.0
    }

    fn index(&self) -> (r: NodeIndex) {
        self.0
    }
}

/// A node backed by a Qdrant vector database.
#[derive(Debug, Clone, Copy, PartialEq, Eq, Structural)]
pub struct QdrantNode(pub NodeIndex);

impl Node for QdrantNode {
    open spec fn node_index(&self) -> NodeIndex {
        self.0
    }

    fn index(&self) -> (r: NodeIndex) {
        self.0
    }
}

} // verus!
