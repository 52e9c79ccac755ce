use vstd::prelude::*;

use crate::graph::{Graph, GraphNode, NodeIndex};
use crate::nodes::{
    add_with_stores, added_with_stores, first_input, first_of, first_store, GetStoreError, Node,
    NodeError, Store, SyncNode,
};
use crate::value::Value;

verus! {

/// A synchronous node that passes its first input through a callback.
#[derive(Debug, Clone, Copy, PartialEq, Eq, Structural)]
pub struct CallbackNode(pub NodeIndex);

impl Node for CallbackNode {
    open spec fn node_index(&self) -> NodeIndex {
        self.0
    }

    fn index(&self) -> (r: NodeIndex) {
        self.0
    }
}

impl CallbackNode {
    /// Adds the callback's node, with an input store at slot 0 and an output
    /// store at slot 0, both holding an empty string.
    pub fn new<S, A>(graph: &mut Graph<S, A>, weight: S) -> (r: Self)
        requires
            old(graph).nodes@.len() + 3 <= usize::MAX,
        ensures
            added_with_stores(*old(graph), *final(graph), GraphNode::SyncNode(weight), r.0, true),
            old(graph).wf() ==> final(graph).wf(),
    {
        CallbackNode(add_with_stores(graph, GraphNode::SyncNode(weight), true))
    }

    /// The first store feeding the node.
    pub fn input<S, A>(&self, graph: &Graph<S, A>) -> (r: Result<Store, GetStoreError>)
        ensures
            first_of(self.input_stores_spec(graph), r),
    {
        let stores = self.input_stores(graph);
        first_store(stores)
    }

    /// The first store that the node fills.
    pub fn output<S, A>(&self, graph: &Graph<S, A>) -> (r: Result<Store, GetStoreError>)
        ensures
            first_of(self.output_stores_spec(graph), r),
    {
        let stores = self.output_stores(graph);
        first_store(stores)
    }
}

/// The callback of a [`CallbackNode`]; it may be called on any value.
pub struct CallbackWeight<F: Fn(Value) -> Value> {
    cb: F,
}

impl<F: Fn(Value) -> Value> CallbackWeight<F> {
    #[verifier::type_invariant]
    spec fn callable(&self) -> bool {
        forall|v: Value| call_requires(self.cb, (v,))
    }

    /// The callback.
    pub closed spec fn callback(&self) -> F {
        self.cb
    }

    pub fn new(cb: F) -> (r: Self)
        requires
            forall|v: Value| call_requires(cb, (v,)),
        ensures
            r.callback() == cb,
    {
        CallbackWeight { cb }
    }

    /// The callback applied to the first input, as the only output; an
    /// internal error when there is no input.
    pub fn apply(&self, inputs: &Vec<Value>) -> (r: Result<Vec<Value>, NodeError>)
        ensures
            inputs@.len() == 0 ==> (r matches Err(NodeError::InternalError(m)) && m@
                == "No input"@),
            inputs@.len() > 0 ==> (r matches Ok(out) && out@.len() == 1 && exists|v: Value|
                v@ == inputs@[0]@ && call_ensures(self.callback(), (v,), #[trigger] out@[0])),
    {
        proof {
            use_type_invariant(self);
        }
        match first_input(inputs) {
            Ok(input) => {
                let ghost given = input;
                let output = (self.cb)(input);
                let ghost produced = output;
                let mut out: Vec<Value> = Vec::new();
                out.push(output);
                assert(out@[0] == produced);
                assert(call_ensures(self.callback(), (given,), out@[0]));
                Ok(out)
            },
            Err(e) => Err(e),
        }
    }
}

impl<F: Fn(Value) -> Value> SyncNode for CallbackWeight<F> {
    fn run(&self, inputs: Vec<Value>) -> Result<Vec<Value>, NodeError> {
        self.apply(&inputs)
    }
}

} // verus!
