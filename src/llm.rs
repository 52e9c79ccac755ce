use vstd::prelude::*;

use std::sync::Arc;

use crate::graph::{Graph, GraphNode, NodeIndex};
use crate::nodes::{
    add_with_stores, added_with_stores, first_of, first_store, GetStoreError, Node, NodeError,
    Store,
};
use crate::text::{push_str, trim, trimmed};
use crate::value::Value;

verus! {

/// An asynchronous node that sends its input to a language model and outputs
/// the response.
#[derive(Debug, Clone, Copy, PartialEq, Eq, Structural)]
pub struct LlmNode(pub NodeIndex);

impl Node for LlmNode {
    open spec fn node_index(&self) -> NodeIndex {
        self.0
    }

    fn index(&self) -> (r: NodeIndex) {
        self.0
    }
}

impl LlmNode {
    /// Adds the model's node, with a prompt store and a response store at slot
    /// 0, both holding an empty string.
    pub fn new<S, A>(graph: &mut Graph<S, A>, weight: A) -> (r: Self)
        requires
            old(graph).nodes@.len() + 3 <= usize::MAX,
        ensures
            added_with_stores(*old(graph), *final(graph), GraphNode::AsyncNode(weight), r.0, true),
            old(graph).wf() ==> final(graph).wf(),
    {
        LlmNode(add_with_stores(graph, GraphNode::AsyncNode(weight), true))
    }

    /// The store holding the prompt.
    pub fn input<S, A>(&self, graph: &Graph<S, A>) -> (r: Result<Store, GetStoreError>)
        ensures
            first_of(self.input_stores_spec(graph), r),
    {
        let stores = self.input_stores(graph);
        first_store(stores)
    }

    /// The store receiving the response.
    pub fn output<S, A>(&self, graph: &Graph<S, A>) -> (r: Result<Store, GetStoreError>)
        ensures
            first_of(self.output_stores_spec(graph), r),
    {
        let stores = self.output_stores(graph);
        first_store(stores)
    }
}

/// Failure of a model backend.
#[derive(Debug)]
pub enum GenerateError {
    BackendError(String),
}

/// The weight of an [`LlmNode`]: a backend shared between nodes.
pub struct LlmWeight<T> {
    pub backend: Arc<T>,
}

impl<T> LlmWeight<T> {
    pub fn new(backend: Arc<T>) -> (r: Self)
        ensures
            r.backend == backend,
    {
        LlmWeight { backend }
    }
}

/// The prompt of a model node: its first input, which must be a string. No
/// input is a missing input at slot 0; another value is a conversion error
/// carrying it.
pub fn prompt_input(inputs: &Vec<Value>) -> (r: Result<String, NodeError>)
    ensures
        inputs@.len() == 0 ==> r == Err::<String, NodeError>(NodeError::MissingInput(0)),
        inputs@.len() > 0 ==> match inputs@[0] {
            Value::String(s) => (r matches Ok(t) && t@ == s@),
            _ => (r matches Err(NodeError::ConversionError(v)) && v@ == inputs@[0]@),
        },
{
    if inputs.len() == 0 {
        return Err(NodeError::MissingInput(0));
    }
    match &inputs[0] {
        Value::String(prompt) => Ok(prompt.clone()),
        v => Err(NodeError::ConversionError(v.clone())),
    }
}

/// The models served by an Ollama server.
#[derive(Debug, Clone, Copy, PartialEq, Eq, Structural)]
pub enum OllamaModel {
    Llama2,
    Llama2Uncensored,
    Mistral,
    Mixtral,
}

impl OllamaModel {
    /// The name under which the server knows the model.
    pub open spec fn name_spec(self) -> Seq<char> {
        match self {
            OllamaModel::Llama2 => "llama2"@,
            OllamaModel::Llama2Uncensored => "llama2-uncensored"@,
            OllamaModel::Mistral => "mistral"@,
            OllamaModel::Mixtral => "mixtral"@,
        }
    }

    /// The name under which the server knows the model.
    pub fn name(&self) -> (r: &'static str)
        ensures
            r@ == self.name_spec(),
    {
        proof {
            reveal_strlit("llama2");
            reveal_strlit("llama2-uncensored");
            reveal_strlit("mistral");
            reveal_strlit("mixtral");
        }
        match self {
            OllamaModel::Llama2 => "llama2",
            OllamaModel::Llama2Uncensored => "llama2-uncensored",
            OllamaModel::Mistral => "mistral",
            OllamaModel::Mixtral => "mixtral",
        }
    }
}

impl Default for OllamaModel {
    fn default() -> (r: Self)
        ensures
            r == OllamaModel::Mistral,
    {
        OllamaModel::Mistral
    }
}

/// A backend that asks an Ollama server at `url`.
pub struct OllamaBackend {
    pub model: OllamaModel,
    pub url: String,
}

impl Default for OllamaBackend {
    /// The default model on a server on this machine.
    fn default() -> (r: Self)
        ensures
            r.model == OllamaModel::Mistral,
            r.url@ == "http://localhost:11434"@,
    {
        OllamaBackend { model: OllamaModel::Mistral, url: "http://localhost:11434".to_owned() }
    }
}

/// The models run on Replicate.
#[derive(Debug, Clone, Copy, PartialEq, Eq, Structural)]
pub enum ReplicateModel {
    Llama2,
    Mistral7B,
}

impl ReplicateModel {
    /// The model's identifier and version on Replicate.
    pub open spec fn as_str_spec(self) -> Seq<char> {
        match self {
            ReplicateModel::Llama2 => "meta/llama-2-7b:73001d654114dad81ec65da3b834e2f691af1e1526453189b7bf36fb3f32d0f9"@,
            ReplicateModel::Mistral7B => "mistralai/mistral-7b-instruct-v0.1:83b6a56e7c828e667f21fd596c338fd4f0039b46bcfa18d973e8e70e455fda70"@,
        }
    }

    /// The model's identifier and version on Replicate.
    pub fn as_str(&self) -> (r: &'static str)
        ensures
            r@ == self.as_str_spec(),
    {
        proof {
            reveal_strlit("meta/llama-2-7b:73001d654114dad81ec65da3b834e2f691af1e1526453189b7bf36fb3f32d0f9");
            reveal_strlit("mistralai/mistral-7b-instruct-v0.1:83b6a56e7c828e667f21fd596c338fd4f0039b46bcfa18d973e8e70e455fda70");
        }
        match self {
            ReplicateModel::Llama2 => "meta/llama-2-7b:73001d654114dad81ec65da3b834e2f691af1e1526453189b7bf36fb3f32d0f9",
            ReplicateModel::Mistral7B => "mistralai/mistral-7b-instruct-v0.1:83b6a56e7c828e667f21fd596c338fd4f0039b46bcfa18d973e8e70e455fda70",
        }
    }
}

/// The configuration of a Replicate client: credentials and endpoint.
#[verifier::external_type_specification]
#[verifier::external_body]
pub struct ExConfig(replicate_rust::config::Config);

/// A backend that runs a model on Replicate.
pub struct ReplicateBackend {
    pub model: ReplicateModel,
    pub config: replicate_rust::config::Config,
}

impl ReplicateBackend {
    pub fn new(model: ReplicateModel, config: replicate_rust::config::Config) -> (r: Self)
        ensures
            r.model == model,
    {
        ReplicateBackend { model, config }
    }
}

impl Default for ReplicateModel {
    fn default() -> (r: Self)
        ensures
            r == ReplicateModel::Mistral7B,
    {
        ReplicateModel::Mistral7B
    }
}

/// The parts of a model's reply joined in order, a missing part counting as
/// empty.
pub open spec fn joined(parts: Seq<Option<String>>) -> Seq<char>
    decreases parts.len(),
{
    if parts.len() == 0 {
        Seq::empty()
    } else {
        joined(parts.drop_last()) + match parts.last() {
            Some(p) => p@,
            None => Seq::empty(),
        }
    }
}

/// The text of a reply that comes in parts: the parts joined, then trimmed.
pub fn reply_text(parts: &Vec<Option<String>>) -> (r: String)
    ensures
        r@ == trimmed(joined(parts@)),
{
    let mut text = String::new();
    let mut i: usize = 0;
    while i < parts.len()
        invariant
            i <= parts@.len(),
            text@ == joined(parts@.subrange(0, i as int)),
        decreases parts@.len() - i,
    {
        proof {
            assert(parts@.subrange(0, i + 1).drop_last() =~= parts@.subrange(0, i as int));
        }
        match &parts[i] {
            Some(part) => push_str(&mut text, part.as_str()),
            None => {},
        }
        i = i + 1;
    }
    proof {
        assert(parts@.subrange(0, parts@.len() as int) =~= parts@);
    }
    trim(text.as_str())
}

} // verus!
