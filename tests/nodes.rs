use std::sync::Arc;

use lemon_graph::callback::{CallbackNode, CallbackWeight};
use lemon_graph::delay::Delay;
use lemon_graph::llm::{
    prompt_input, LlmNode, LlmWeight, OllamaBackend, OllamaModel, ReplicateBackend, ReplicateModel,
};
use lemon_graph::util::{input_stores, next_nodes, output_stores, previous_nodes};
use lemon_graph::log::LogNode;
use lemon_graph::nodes::{first_input, string_input, GetStoreError, Node, NodeError, Store, SyncNode};
use lemon_graph::prompt::PromptNode;
use lemon_graph::{ExecutionStep, Executor, Graph, GraphEdge, GraphNode, Value};

type Callback = CallbackWeight<Box<dyn Fn(Value) -> Value>>;

fn upper(input: Value) -> Value {
    let input = match input {
        Value::String(value) => value,
        _ => panic!("Invalid input"),
    };
    Value::String(input.to_uppercase())
}

fn store_value<S, A>(graph: &Graph<S, A>, index: usize) -> &Value {
    match graph.node_weight(index).unwrap() {
        GraphNode::Store(value) => value,
        _ => panic!(),
    }
}

#[test]
fn test_callback_weight() {
    let weight: Callback = CallbackWeight::new(Box::new(upper));

    let out = weight.run(vec!["Hello, world!".to_string().into()]).unwrap();

    assert_eq!(out, vec!["HELLO, WORLD!".to_string().into()]);
}

#[test]
fn callback_without_input_fails() {
    let weight: Callback = CallbackWeight::new(Box::new(upper));
    match weight.run(vec![]) {
        Err(NodeError::InternalError(m)) => assert_eq!(m, "No input"),
        _ => panic!("expected an internal error"),
    }
}

#[test]
fn callback_node_runs_in_a_graph() {
    let mut graph: Graph<Callback, ()> = Graph::new();
    let callback = CallbackNode::new(&mut graph, CallbackWeight::new(Box::new(upper)));
    let second = CallbackNode::new(&mut graph, CallbackWeight::new(Box::new(|v| v)));
    second.run_after(&mut graph, callback.0);

    let input = callback.input(&graph).unwrap();
    input.set_value(&mut graph, "Hello, world!".to_string().into());

    let done = Executor::execute(&mut graph, callback.0, 10).unwrap();
    assert!(done);
    let output = callback.output(&graph).unwrap();
    assert_eq!(store_value(&graph, output.0), &Value::String("HELLO, WORLD!".to_string()));
    assert_eq!(callback.output_execution(&graph), vec![second.0]);
    assert_eq!(second.input_execution(&graph), vec![callback.0]);
}

#[test]
fn builders_add_stores_at_slot_zero() {
    let mut graph: Graph<(), ()> = Graph::new();
    let log = LogNode::new(&mut graph, ());
    assert_eq!(log.0, 0);
    assert_eq!(log.message(&graph), Ok(Store(1)));
    assert_eq!(store_value(&graph, 1), &Value::String(String::new()));

    let prompt = PromptNode::new(&mut graph, ());
    assert_eq!(prompt.input(&graph), Ok(Store(3)));
    assert_eq!(prompt.output(&graph), Ok(Store(4)));

    let llm = LlmNode::new(&mut graph, ());
    assert!(matches!(graph.node_weight(llm.0), Some(GraphNode::AsyncNode(()))));
    assert_eq!(llm.input(&graph), Ok(Store(6)));
    assert_eq!(llm.output(&graph), Ok(Store(7)));
    assert_eq!(graph.edges.len(), 5);
}

#[test]
fn missing_store_is_reported() {
    let mut graph: Graph<(), ()> = Graph::new();
    let log = LogNode::new(&mut graph, ());
    let lone = PromptNode(graph.add_node(GraphNode::SyncNode(())));
    assert_eq!(lone.input(&graph), Err(GetStoreError::NoStore));
    assert_eq!(lone.output(&graph), Err(GetStoreError::NoStore));
    assert_eq!(log.output_stores(&graph), vec![]);
}

#[test]
fn set_input_replaces_data_flow() {
    let mut graph: Graph<(), ()> = Graph::new();
    let a = Store(graph.add_node(GraphNode::Store(Value::Bool(true))));
    let b = Store(graph.add_node(GraphNode::Store(Value::Bool(false))));
    let c = Store(graph.add_node(GraphNode::Store(Value::Bool(false))));
    c.set_input(&mut graph, Some(a));
    assert_eq!(c.inputs(&graph), vec![a]);
    c.set_input(&mut graph, Some(b));
    assert_eq!(c.inputs(&graph), vec![b]);
    assert_eq!(a.outputs(&graph), vec![]);
    assert_eq!(b.outputs(&graph), vec![c]);
    c.set_input(&mut graph, None);
    assert_eq!(c.inputs(&graph), vec![]);
    a.add_output(&mut graph, b);
    assert_eq!(b.inputs(&graph), vec![a]);
    assert_eq!(graph.edges.len(), 1);
}

#[test]
fn input_helpers_check_the_first_input() {
    assert!(matches!(first_input(&vec![]), Err(NodeError::InternalError(m)) if m == "No input"));
    assert_eq!(first_input(&vec![Value::USize(1), Value::Bool(true)]).unwrap(), Value::USize(1));
    assert_eq!(string_input(&vec![Value::String("a".to_string())]).unwrap(), "a");
    assert!(matches!(
        string_input(&vec![Value::USize(2)]),
        Err(NodeError::ConversionError(Value::USize(2)))
    ));
    assert!(matches!(prompt_input(&vec![]), Err(NodeError::MissingInput(0))));
    assert_eq!(prompt_input(&vec![Value::String("q".to_string())]).unwrap(), "q");
    assert!(matches!(
        prompt_input(&vec![Value::Bool(true)]),
        Err(NodeError::ConversionError(Value::Bool(true)))
    ));
}

#[test]
fn delay_reads_a_float_duration() {
    let bits = 0.25f32.to_bits();
    assert_eq!(Delay.duration(Value::F32(bits)).unwrap(), bits);
    assert!(matches!(
        Delay.duration(Value::USize(1)),
        Err(NodeError::ConversionError(Value::USize(1)))
    ));
}

#[test]
fn model_names() {
    assert_eq!(OllamaModel::default(), OllamaModel::Mistral);
    assert_eq!(OllamaModel::Llama2Uncensored.name(), "llama2-uncensored");
    assert_eq!(OllamaModel::Mixtral.name(), "mixtral");
    let backend = OllamaBackend::default();
    assert_eq!(backend.url, "http://localhost:11434");
    assert_eq!(backend.model, OllamaModel::Mistral);
    assert_eq!(ReplicateModel::default(), ReplicateModel::Mistral7B);
    assert!(ReplicateModel::Llama2.as_str().starts_with("meta/llama-2-7b:"));
    assert!(ReplicateModel::Mistral7B.as_str().starts_with("mistralai/mistral-7b-instruct-v0.1:"));
    let weight = LlmWeight::new(Arc::new(backend));
    assert_eq!(weight.backend.url, "http://localhost:11434");
}

#[test]
fn step_graph_edges_are_listed_in_order() {
    let mut graph: Graph<(), ()> = Graph::new();
    let a = graph.add_node(GraphNode::SyncNode(()));
    let b = graph.add_node(GraphNode::SyncNode(()));
    graph.add_edge(a, b, GraphEdge::ExecutionFlow);
    graph.add_edge(a, a, GraphEdge::ExecutionFlow);
    assert_eq!(ExecutionStep(a).next_steps(&graph), vec![ExecutionStep(b), ExecutionStep(a)]);
}

#[test]
fn neighbour_queries_filter_by_kind() {
    let mut graph: Graph<(), ()> = Graph::new();
    let a = graph.add_node(GraphNode::AsyncNode(()));
    let s = graph.add_node(GraphNode::SyncNode(()));
    let x = graph.add_node(GraphNode::Store(Value::Bool(true)));
    let y = graph.add_node(GraphNode::Store(Value::Bool(false)));
    let b = graph.add_node(GraphNode::AsyncNode(()));
    graph.add_edge(a, s, GraphEdge::ExecutionFlow);
    graph.add_edge(x, s, GraphEdge::DataMap(0));
    graph.add_edge(s, y, GraphEdge::DataMap(0));
    graph.add_edge(s, b, GraphEdge::ExecutionFlow);
    graph.add_edge(s, a, GraphEdge::ExecutionFlow);
    assert_eq!(previous_nodes(s, &graph), vec![a]);
    assert_eq!(next_nodes(s, &graph), vec![b, a]);
    assert_eq!(input_stores(s, &graph), vec![x]);
    assert_eq!(output_stores(s, &graph), vec![y]);
    assert!(input_stores(a, &graph).is_empty());
}

#[test]
fn replicate_backend_keeps_its_model() {
    let config = replicate_rust::config::Config {
        auth: "token".to_string(),
        user_agent: "agent".to_string(),
        base_url: "https://api.replicate.com/v1".to_string(),
    };
    let backend = ReplicateBackend::new(ReplicateModel::Llama2, config);
    assert_eq!(backend.model, ReplicateModel::Llama2);
    assert_eq!(backend.config.auth, "token");
}
