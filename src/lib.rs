//! Directed computation graphs: computation nodes and value stores linked by
//! execution-flow and slot-indexed data edges, with a verified step engine.
//!
//! The engine resolves a node's inputs from the stores on its `DataMap`
//! edges, ordered by slot, runs the node, writes each output to the store of
//! its slot, and schedules the nodes on its `ExecutionFlow` edges. Synchronous
//! nodes run inside the engine; an asynchronous node is run by the caller
//! between `ExecutionStep::resolve_inputs` and `ExecutionStep::complete`.
use vstd::prelude::*;

pub mod callback;
pub mod delay;
pub mod execution;
pub mod executor;
pub mod graph;
pub mod llm;
pub mod log;
pub mod memory;
pub mod nodes;
pub mod ollama;
pub mod prompt;
pub mod text;
pub mod util;
pub mod value;

pub use execution::{ExecutionStep, ExecutionStepError};
pub use executor::Executor;
pub use graph::{Edge, EdgeClass, Graph, GraphEdge, GraphNode, NodeIndex};
pub use value::{Value, ValueModel};
