use std::cell::Cell;
use std::rc::Rc;

use lemon_graph::nodes::{NodeError, SyncNode};
use lemon_graph::{ExecutionStep, ExecutionStepError, Executor, Graph, GraphEdge, GraphNode, Value};

/// Passes its inputs through unchanged.
struct TestSync;

impl SyncNode for TestSync {
    fn run(&self, inputs: Vec<Value>) -> Result<Vec<Value>, NodeError> {
        Ok(inputs)
    }
}

/// Uppercases its single string input.
struct Upper;

impl SyncNode for Upper {
    fn run(&self, inputs: Vec<Value>) -> Result<Vec<Value>, NodeError> {
        match inputs.first() {
            Some(Value::String(s)) => Ok(vec![Value::String(s.to_uppercase())]),
            Some(v) => Err(NodeError::ConversionError(v.clone())),
            None => Err(NodeError::MissingInput(0)),
        }
    }
}

/// Records the inputs it sees and outputs them.
struct Recorder {
    seen: Rc<std::cell::RefCell<Vec<Value>>>,
}

impl SyncNode for Recorder {
    fn run(&self, inputs: Vec<Value>) -> Result<Vec<Value>, NodeError> {
        *self.seen.borrow_mut() = inputs.clone();
        Ok(inputs)
    }
}

/// Counts its calls and fails on call number `fail_on` (never when 0).
struct Counting {
    calls: Rc<Cell<usize>>,
    fail_on: usize,
    outputs: Vec<Value>,
}

impl SyncNode for Counting {
    fn run(&self, _inputs: Vec<Value>) -> Result<Vec<Value>, NodeError> {
        let n = self.calls.get() + 1;
        self.calls.set(n);
        if n == self.fail_on {
            Err(NodeError::InternalError(format!("failed on call {}", n)))
        } else {
            Ok(self.outputs.clone())
        }
    }
}

/// Always fails.
struct Failing;

impl SyncNode for Failing {
    fn run(&self, _inputs: Vec<Value>) -> Result<Vec<Value>, NodeError> {
        Err(NodeError::InternalError("broken".to_string()))
    }
}

fn store_value<S, A>(graph: &Graph<S, A>, index: usize) -> &Value {
    match graph.node_weight(index).unwrap() {
        GraphNode::Store(value) => value,
        _ => panic!(),
    }
}

#[test]
fn test_sync_execution() {
    let mut graph: Graph<TestSync, ()> = Graph::new();

    let input = graph.add_node(GraphNode::Store(Value::String("Hello, world!".to_string())));
    let node = graph.add_node(GraphNode::SyncNode(TestSync));
    let output = graph.add_node(GraphNode::Store(Value::String(Default::default())));
    graph.add_edge(input, node, GraphEdge::DataMap(0));
    graph.add_edge(node, output, GraphEdge::DataMap(0));

    let step = ExecutionStep(node);
    let next_steps = step.execute(&mut graph).unwrap();

    assert_eq!(next_steps.len(), 0);
    assert_eq!(store_value(&graph, output), &Value::String("Hello, world!".to_string()));
}

#[test]
fn test_async_execution() {
    // An asynchronous node is run by its caller between resolving the inputs
    // and completing the step; here it echoes its inputs.
    let mut graph: Graph<TestSync, ()> = Graph::new();

    let input = graph.add_node(GraphNode::Store(Value::String("Hello, world!".to_string())));
    let node = graph.add_node(GraphNode::AsyncNode(()));
    let output = graph.add_node(GraphNode::Store(Value::String(Default::default())));
    graph.add_edge(input, node, GraphEdge::DataMap(0));
    graph.add_edge(node, output, GraphEdge::DataMap(0));

    let step = ExecutionStep(node);
    let inputs = step.resolve_inputs(&graph).unwrap();
    let next_steps = step.complete(&mut graph, Ok(inputs)).unwrap();

    assert_eq!(next_steps.len(), 0);
    assert_eq!(store_value(&graph, output), &Value::String("Hello, world!".to_string()));
}

#[test]
fn inputs_arrive_in_slot_order() {
    for reversed in [false, true] {
        let seen = Rc::new(std::cell::RefCell::new(Vec::new()));
        let mut graph: Graph<Recorder, ()> = Graph::new();
        let a = graph.add_node(GraphNode::Store(Value::USize(1)));
        let b = graph.add_node(GraphNode::Store(Value::String("b".to_string())));
        let node = graph.add_node(GraphNode::SyncNode(Recorder { seen: seen.clone() }));
        if reversed {
            graph.add_edge(b, node, GraphEdge::DataMap(1));
            graph.add_edge(a, node, GraphEdge::DataMap(0));
        } else {
            graph.add_edge(a, node, GraphEdge::DataMap(0));
            graph.add_edge(b, node, GraphEdge::DataMap(1));
        }
        ExecutionStep(node).execute(&mut graph).unwrap();
        assert_eq!(*seen.borrow(), vec![Value::USize(1), Value::String("b".to_string())]);
    }
}

#[test]
fn equal_slots_keep_edge_order() {
    let mut graph: Graph<TestSync, ()> = Graph::new();
    let a = graph.add_node(GraphNode::Store(Value::USize(1)));
    let b = graph.add_node(GraphNode::Store(Value::USize(2)));
    let c = graph.add_node(GraphNode::Store(Value::USize(3)));
    let node = graph.add_node(GraphNode::SyncNode(TestSync));
    graph.add_edge(c, node, GraphEdge::DataMap(1));
    graph.add_edge(b, node, GraphEdge::DataMap(0));
    graph.add_edge(a, node, GraphEdge::DataMap(0));
    let inputs = ExecutionStep(node).resolve_inputs(&graph).unwrap();
    assert_eq!(inputs, vec![Value::USize(2), Value::USize(1), Value::USize(3)]);
}

#[test]
fn unmapped_output_is_dropped() {
    let mut graph: Graph<TestSync, ()> = Graph::new();
    let a = graph.add_node(GraphNode::Store(Value::USize(1)));
    let b = graph.add_node(GraphNode::Store(Value::USize(2)));
    let node = graph.add_node(GraphNode::SyncNode(TestSync));
    let out = graph.add_node(GraphNode::Store(Value::Bool(false)));
    let other = graph.add_node(GraphNode::Store(Value::Bool(false)));
    graph.add_edge(a, node, GraphEdge::DataMap(0));
    graph.add_edge(b, node, GraphEdge::DataMap(1));
    // Only slot 1 is mapped; output 0 has nowhere to go.
    graph.add_edge(node, out, GraphEdge::DataMap(1));
    let next = ExecutionStep(node).execute(&mut graph).unwrap();
    assert!(next.is_empty());
    assert_eq!(store_value(&graph, out), &Value::USize(2));
    assert_eq!(store_value(&graph, other), &Value::Bool(false));
    assert_eq!(store_value(&graph, a), &Value::USize(1));
    assert_eq!(store_value(&graph, b), &Value::USize(2));
}

#[test]
fn first_edge_of_a_slot_receives_the_output() {
    let mut graph: Graph<TestSync, ()> = Graph::new();
    let a = graph.add_node(GraphNode::Store(Value::USize(7)));
    let node = graph.add_node(GraphNode::SyncNode(TestSync));
    let first = graph.add_node(GraphNode::Store(Value::Bool(false)));
    let second = graph.add_node(GraphNode::Store(Value::Bool(false)));
    graph.add_edge(a, node, GraphEdge::DataMap(0));
    graph.add_edge(node, first, GraphEdge::DataMap(0));
    graph.add_edge(node, second, GraphEdge::DataMap(0));
    ExecutionStep(node).execute(&mut graph).unwrap();
    assert_eq!(store_value(&graph, first), &Value::USize(7));
    assert_eq!(store_value(&graph, second), &Value::Bool(false));
}

#[test]
fn single_node_has_no_successors() {
    let mut graph: Graph<TestSync, ()> = Graph::new();
    let node = graph.add_node(GraphNode::SyncNode(TestSync));
    let next = ExecutionStep::new(node).execute(&mut graph).unwrap();
    assert_eq!(next.len(), 0);
    assert!(ExecutionStep(node).next_steps(&graph).is_empty());
}

#[test]
fn fan_out_yields_two_steps_and_runs_both() {
    let a_calls = Rc::new(Cell::new(0));
    let b_calls = Rc::new(Cell::new(0));
    let c_calls = Rc::new(Cell::new(0));
    let node = |calls: &Rc<Cell<usize>>| Counting { calls: calls.clone(), fail_on: 0, outputs: vec![] };
    let mut graph: Graph<Counting, ()> = Graph::new();
    let a = graph.add_node(GraphNode::SyncNode(node(&a_calls)));
    let b = graph.add_node(GraphNode::SyncNode(node(&b_calls)));
    let c = graph.add_node(GraphNode::SyncNode(node(&c_calls)));
    graph.add_edge(a, b, GraphEdge::ExecutionFlow);
    graph.add_edge(a, c, GraphEdge::ExecutionFlow);

    let next = ExecutionStep(a).next_steps(&graph);
    assert_eq!(next, vec![ExecutionStep(b), ExecutionStep(c)]);

    let done = Executor::execute(&mut graph, a, 100).unwrap();
    assert!(done);
    assert_eq!(a_calls.get(), 1);
    assert_eq!(b_calls.get(), 1);
    assert_eq!(c_calls.get(), 1);
}

#[test]
fn cycle_aborts_on_second_failure() {
    let a_calls = Rc::new(Cell::new(0));
    let b_calls = Rc::new(Cell::new(0));
    let mut graph: Graph<Counting, ()> = Graph::new();
    let out = graph.add_node(GraphNode::Store(Value::Bool(false)));
    let a = graph.add_node(GraphNode::SyncNode(Counting {
        calls: a_calls.clone(),
        fail_on: 0,
        outputs: vec![Value::Bool(true)],
    }));
    let b = graph.add_node(GraphNode::SyncNode(Counting {
        calls: b_calls.clone(),
        fail_on: 2,
        outputs: vec![],
    }));
    graph.add_edge(a, out, GraphEdge::DataMap(0));
    graph.add_edge(a, b, GraphEdge::ExecutionFlow);
    graph.add_edge(b, a, GraphEdge::ExecutionFlow);

    let result = Executor::execute(&mut graph, a, 1000);
    match result {
        Err(ExecutionStepError::NodeError(NodeError::InternalError(message))) => {
            assert_eq!(message, "failed on call 2")
        }
        _ => panic!("the pass should end with the node's error"),
    }
    assert_eq!(a_calls.get(), 2);
    assert_eq!(b_calls.get(), 2);
    assert_eq!(store_value(&graph, out), &Value::Bool(true));
}

#[test]
fn uppercase_scenario() {
    let mut graph: Graph<Upper, ()> = Graph::new();
    let s1 = graph.add_node(GraphNode::Store(Value::String("hi".to_string())));
    let n = graph.add_node(GraphNode::SyncNode(Upper));
    let s2 = graph.add_node(GraphNode::Store(Value::String(String::new())));
    graph.add_edge(s1, n, GraphEdge::DataMap(0));
    graph.add_edge(n, s2, GraphEdge::DataMap(0));
    let next = ExecutionStep(n).execute(&mut graph).unwrap();
    assert!(next.is_empty());
    assert_eq!(store_value(&graph, s2), &Value::String("HI".to_string()));
    assert_eq!(store_value(&graph, s1), &Value::String("hi".to_string()));
}

#[test]
fn missing_target_is_no_weight() {
    let mut graph: Graph<TestSync, ()> = Graph::new();
    graph.add_node(GraphNode::Store(Value::Bool(true)));
    assert!(matches!(ExecutionStep(5).execute(&mut graph), Err(ExecutionStepError::NoWeight)));
}

#[test]
fn store_target_is_invalid_weight() {
    let mut graph: Graph<TestSync, ()> = Graph::new();
    let s = graph.add_node(GraphNode::Store(Value::Bool(true)));
    assert!(matches!(ExecutionStep(s).execute(&mut graph), Err(ExecutionStepError::InvalidWeight)));
}

#[test]
fn non_store_source_is_invalid_weight() {
    let mut graph: Graph<TestSync, ()> = Graph::new();
    let a = graph.add_node(GraphNode::SyncNode(TestSync));
    let b = graph.add_node(GraphNode::SyncNode(TestSync));
    let out = graph.add_node(GraphNode::Store(Value::Bool(false)));
    graph.add_edge(a, b, GraphEdge::DataMap(0));
    graph.add_edge(b, out, GraphEdge::DataMap(0));
    assert!(matches!(ExecutionStep(b).execute(&mut graph), Err(ExecutionStepError::InvalidWeight)));
    assert_eq!(store_value(&graph, out), &Value::Bool(false));
}

#[test]
fn async_target_is_not_run_synchronously() {
    let mut graph: Graph<TestSync, ()> = Graph::new();
    let a = graph.add_node(GraphNode::AsyncNode(()));
    assert!(matches!(ExecutionStep(a).execute(&mut graph), Err(ExecutionStepError::InvalidWeight)));
}

#[test]
fn node_failure_writes_nothing() {
    let mut graph: Graph<Failing, ()> = Graph::new();
    let input = graph.add_node(GraphNode::Store(Value::USize(3)));
    let node = graph.add_node(GraphNode::SyncNode(Failing));
    let out = graph.add_node(GraphNode::Store(Value::Bool(false)));
    let next = graph.add_node(GraphNode::SyncNode(Failing));
    graph.add_edge(input, node, GraphEdge::DataMap(0));
    graph.add_edge(node, out, GraphEdge::DataMap(0));
    graph.add_edge(node, next, GraphEdge::ExecutionFlow);
    match ExecutionStep(node).execute(&mut graph) {
        Err(ExecutionStepError::NodeError(NodeError::InternalError(m))) => assert_eq!(m, "broken"),
        _ => panic!("expected the node's error"),
    }
    assert_eq!(store_value(&graph, out), &Value::Bool(false));
}

#[test]
fn executor_worklist_is_last_in_first_out() {
    let mut executor = Executor::new(1);
    assert!(!executor.is_done());
    executor.schedule(vec![ExecutionStep(2), ExecutionStep(3)]);
    assert_eq!(executor.next_step(), Some(ExecutionStep(3)));
    assert_eq!(executor.next_step(), Some(ExecutionStep(2)));
    assert_eq!(executor.next_step(), Some(ExecutionStep(1)));
    assert_eq!(executor.next_step(), None);
    assert!(executor.is_done());
}

#[test]
fn executor_stops_at_its_budget() {
    let calls = Rc::new(Cell::new(0));
    let mut graph: Graph<Counting, ()> = Graph::new();
    let a = graph.add_node(GraphNode::SyncNode(Counting { calls: calls.clone(), fail_on: 0, outputs: vec![] }));
    graph.add_edge(a, a, GraphEdge::ExecutionFlow);
    let mut executor = Executor::new(a);
    assert_eq!(executor.run(&mut graph, 5).unwrap(), false);
    assert_eq!(calls.get(), 5);
    assert_eq!(executor.advance(&mut graph).unwrap(), true);
    assert_eq!(calls.get(), 6);
}

#[test]
fn empty_worklist_advances_nothing() {
    let mut graph: Graph<TestSync, ()> = Graph::new();
    let mut executor = Executor::new(0);
    executor.next_step();
    assert_eq!(executor.advance(&mut graph).unwrap(), false);
    assert_eq!(executor.run(&mut graph, 3).unwrap(), true);
}

#[test]
fn slot_gaps_are_detected() {
    let mut graph: Graph<TestSync, ()> = Graph::new();
    let a = graph.add_node(GraphNode::Store(Value::USize(1)));
    let b = graph.add_node(GraphNode::Store(Value::USize(2)));
    let node = graph.add_node(GraphNode::SyncNode(TestSync));
    assert!(ExecutionStep(node).input_slots_contiguous(&graph));
    graph.add_edge(a, node, GraphEdge::DataMap(1));
    assert!(!ExecutionStep(node).input_slots_contiguous(&graph));
    graph.add_edge(b, node, GraphEdge::DataMap(0));
    assert!(ExecutionStep(node).input_slots_contiguous(&graph));
    graph.add_edge(b, node, GraphEdge::DataMap(1));
    assert!(!ExecutionStep(node).input_slots_contiguous(&graph));
}

#[test]
fn slot_gap_compacts_inputs() {
    let mut graph: Graph<TestSync, ()> = Graph::new();
    let a = graph.add_node(GraphNode::Store(Value::USize(1)));
    let node = graph.add_node(GraphNode::SyncNode(TestSync));
    graph.add_edge(a, node, GraphEdge::DataMap(3));
    assert_eq!(ExecutionStep(node).resolve_inputs(&graph).unwrap(), vec![Value::USize(1)]);
}
